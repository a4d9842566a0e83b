//! Saving, restoring and deleting the per-network state files.
//!
//! The library decides which file operations to perform; the caller performs
//! them in order and stops at the first one that fails. A file system is
//! modelled as a map from paths to contents, which lets the crash safety of
//! the save protocol be stated and proved.

use vstd::prelude::*;
use crate::config::{Config, FilePath};
use crate::network::{Network, NetworkSpecific};

verus! {

/// What is found at a path.
#[derive(Clone, Copy, Debug, PartialEq, Eq, Structural)]
pub enum EntryKind {
    /// Nothing
    Missing,
    /// A regular file
    File,
    /// Something other than a regular file
    Other,
}

/// The error for a path that holds something other than a regular file.
#[derive(Clone, Copy, Debug, PartialEq, Eq, Structural)]
pub struct InvalidFileFormat;

/// Whether each network's state file exists, from what is found at each
/// state file path; an error if one holds something other than a regular file.
pub fn data_existence(found: &NetworkSpecific<EntryKind>) -> (r: Result<NetworkSpecific<bool>, InvalidFileFormat>)
    ensures
        r is Err <==> exists|n: Network| #[trigger] found.at(n) == EntryKind::Other,
        r is Ok ==> forall|n: Network| #[trigger] r->Ok_0.at(n) == (found.at(n) == EntryKind::File),
{
    if found.dolphin == EntryKind::Other || found.calamari == EntryKind::Other || found.manta == EntryKind::Other {
        proof {
            if found.dolphin == EntryKind::Other {
                assert(found.at(Network::Dolphin) == EntryKind::Other);
            } else if found.calamari == EntryKind::Other {
                assert(found.at(Network::Calamari) == EntryKind::Other);
            } else {
                assert(found.at(Network::Manta) == EntryKind::Other);
            }
        }
        return Err(InvalidFileFormat);
    }
    let r = NetworkSpecific::new(
        found.dolphin == EntryKind::File,
        found.calamari == EntryKind::File,
        found.manta == EntryKind::File,
    );
    proof {
        assert forall|n: Network| #[trigger] r.at(n) == (found.at(n) == EntryKind::File) by {
            match n {
                Network::Dolphin => {},
                Network::Calamari => {},
                Network::Manta => {},
            }
        }
        assert forall|n: Network| #[trigger] found.at(n) != EntryKind::Other by {
            match n {
                Network::Dolphin => {},
                Network::Calamari => {},
                Network::Manta => {},
            }
        }
    }
    Ok(r)
}

/// One file operation.
#[derive(Debug)]
pub enum FsOp {
    /// Remove the file at the path
    Remove(FilePath),
    /// Move the file at the first path to the second
    Rename(FilePath, FilePath),
    /// Write the encrypted state to the path
    WriteState(FilePath),
}

/// A file system: the contents of each file, by path.
pub type FileSystem = Map<Seq<Seq<char>>, Seq<u8>>;

/// An operation on paths alone, the form the model reasons about.
pub enum OpModel {
    /// Remove the file at the path
    Remove(Seq<Seq<char>>),
    /// Move the file at the first path to the second
    Rename(Seq<Seq<char>>, Seq<Seq<char>>),
    /// Write the encrypted state to the path
    WriteState(Seq<Seq<char>>),
}

impl View for FsOp {
    type V = OpModel;

    open spec fn view(&self) -> OpModel {
        match self {
            FsOp::Remove(p) => OpModel::Remove(p@),
            FsOp::Rename(a, b) => OpModel::Rename(a@, b@),
            FsOp::WriteState(p) => OpModel::WriteState(p@),
        }
    }
}

/// The views of a list of operations.
pub open spec fn ops_view(ops: Seq<FsOp>) -> Seq<OpModel> {
    ops.map_values(|op: FsOp| op@)
}

/// The file system after `op`, with `state` as the bytes that a write puts
/// down; `None` when the operation fails (removing or moving a missing file).
pub open spec fn apply_op(fs: FileSystem, op: OpModel, state: Seq<u8>) -> Option<FileSystem> {
    match op {
        OpModel::Remove(p) => if fs.contains_key(p) {
            Some(fs.remove(p))
        } else {
            None
        },
        OpModel::Rename(a, b) => if fs.contains_key(a) {
            Some(fs.remove(a).insert(b, fs[a]))
        } else {
            None
        },
        OpModel::WriteState(p) => Some(fs.insert(p, state)),
    }
}

/// The file system after the operations `ops` in order, or `None` if one fails.
pub open spec fn apply_ops(fs: FileSystem, ops: Seq<OpModel>, state: Seq<u8>) -> Option<FileSystem>
    decreases ops.len(),
{
    if ops.len() == 0 {
        Some(fs)
    } else {
        match apply_op(fs, ops[0], state) {
            Some(next) => apply_ops(next, ops.drop_first(), state),
            None => None,
        }
    }
}

/// What the model finds at a path.
pub open spec fn kind_in(fs: FileSystem, p: Seq<Seq<char>>) -> EntryKind {
    if fs.contains_key(p) {
        EntryKind::File
    } else {
        EntryKind::Missing
    }
}

impl Config {
    /// The operations of a save: move the state file aside, write the new
    /// state, then drop the backup.
    pub open spec fn save_ops(&self, network: Network) -> Seq<OpModel> {
        let p = self.data_path.at(network)@;
        let b = self.backup_data_path.at(network)@;
        seq![OpModel::Rename(p, b), OpModel::WriteState(p), OpModel::Remove(b)]
    }

    /// The operations that restore a backup left by an unfinished save.
    pub open spec fn restore_ops(&self, network: Network, backup: EntryKind, primary: EntryKind)
        -> Result<Seq<OpModel>, InvalidFileFormat>
    {
        let p = self.data_path.at(network)@;
        let b = self.backup_data_path.at(network)@;
        match backup {
            EntryKind::Missing => Ok(Seq::empty()),
            EntryKind::Other => Err(InvalidFileFormat),
            EntryKind::File => if primary == EntryKind::File {
                Ok(seq![OpModel::Remove(p), OpModel::Rename(b, p)])
            } else {
                Ok(seq![OpModel::Rename(b, p)])
            },
        }
    }

    /// The operations that delete a network's files, each only where a file is.
    pub open spec fn delete_ops(&self, network: Network, primary: EntryKind, backup: EntryKind)
        -> Seq<OpModel>
    {
        let p = self.data_path.at(network)@;
        let b = self.backup_data_path.at(network)@;
        let first = if primary == EntryKind::File { seq![OpModel::Remove(p)] } else { Seq::empty() };
        if backup == EntryKind::File {
            first.push(OpModel::Remove(b))
        } else {
            first
        }
    }

    /// Plans the save of `network`'s state.
    pub fn save_plan(&self, network: Network) -> (r: Vec<FsOp>)
        ensures
            ops_view(r@) == self.save_ops(network),
    {
        let p = self.data_path.get(network);
        let b = self.backup_data_path.get(network);
        let r = vec![
            FsOp::Rename(p.duplicate(), b.duplicate()),
            FsOp::WriteState(p.duplicate()),
            FsOp::Remove(b.duplicate()),
        ];
        assert(ops_view(r@) =~= self.save_ops(network));
        r
    }

    /// Plans the restoration of `network`'s backup, given what is found at the
    /// backup path and at the state file path.
    pub fn restore_plan(&self, network: Network, backup: EntryKind, primary: EntryKind)
        -> (r: Result<Vec<FsOp>, InvalidFileFormat>)
        ensures
            r is Ok <==> self.restore_ops(network, backup, primary) is Ok,
            r is Ok ==> ops_view(r->Ok_0@) == self.restore_ops(network, backup, primary)->Ok_0,
    {
        let p = self.data_path.get(network);
        let b = self.backup_data_path.get(network);
        match backup {
            EntryKind::Missing => {
                let r: Vec<FsOp> = Vec::new();
                assert(ops_view(r@) =~= Seq::empty());
                Ok(r)
            },
            EntryKind::Other => Err(InvalidFileFormat),
            EntryKind::File => {
                let mut r: Vec<FsOp> = Vec::new();
                if primary == EntryKind::File {
                    r.push(FsOp::Remove(p.duplicate()));
                }
                r.push(FsOp::Rename(b.duplicate(), p.duplicate()));
                assert(ops_view(r@) =~= self.restore_ops(network, backup, primary)->Ok_0);
                Ok(r)
            },
        }
    }

    /// Plans the deletion of `network`'s state file and backup.
    pub fn delete_plan(&self, network: Network, primary: EntryKind, backup: EntryKind)
        -> (r: Vec<FsOp>)
        ensures
            ops_view(r@) == self.delete_ops(network, primary, backup),
    {
        let mut r: Vec<FsOp> = Vec::new();
        if primary == EntryKind::File {
            r.push(FsOp::Remove(self.data_path.get(network).duplicate()));
        }
        if backup == EntryKind::File {
            r.push(FsOp::Remove(self.backup_data_path.get(network).duplicate()));
        }
        assert(ops_view(r@) =~= self.delete_ops(network, primary, backup));
        r
    }
}

/// A save that runs to the end leaves the new state in the state file and no
/// backup, and touches no other path.
pub proof fn lemma_save_completes(config: Config, network: Network, fs: FileSystem, state: Seq<u8>)
    requires
        config.wf(),
        fs.contains_key(config.data_path.at(network)@),
        !fs.contains_key(config.backup_data_path.at(network)@),
    ensures
        apply_ops(fs, config.save_ops(network), state)
            == Some(fs.insert(config.data_path.at(network)@, state)),
        config.restore_ops(network, EntryKind::Missing, EntryKind::File) == Ok::<Seq<OpModel>, InvalidFileFormat>(Seq::empty()),
{
    let p = config.data_path.at(network)@;
    let b = config.backup_data_path.at(network)@;
    let ops = config.save_ops(network);
    let fs1 = fs.remove(p).insert(b, fs[p]);
    let fs2 = fs1.insert(p, state);
    let fs3 = fs2.remove(b);
    assert(apply_op(fs, ops[0], state) == Some(fs1));
    assert(ops.drop_first() =~= seq![OpModel::WriteState(p), OpModel::Remove(b)]);
    assert(apply_op(fs1, OpModel::WriteState(p), state) == Some(fs2));
    assert(seq![OpModel::WriteState(p), OpModel::Remove(b)].drop_first() =~= seq![OpModel::Remove(b)]);
    assert(fs2.contains_key(b));
    assert(apply_op(fs2, OpModel::Remove(b), state) == Some(fs3));
    assert(seq![OpModel::Remove(b)].drop_first() =~= Seq::<OpModel>::empty());
    assert(apply_ops(fs3, Seq::<OpModel>::empty(), state) == Some(fs3));
    assert(apply_ops(fs2, seq![OpModel::Remove(b)], state) == Some(fs3));
    assert(apply_ops(fs1, seq![OpModel::WriteState(p), OpModel::Remove(b)], state) == Some(fs3));
    assert(apply_ops(fs, ops, state) == Some(fs3));
    assert(fs3 =~= fs.insert(p, state));
}

/// A save interrupted after the state file was moved aside, whether the new
/// state was not written, partly written (`written` holds what reached the
/// disk) or fully written, is undone by restoring the backup: the state file
/// again holds what it held before the save, and the backup is gone.
pub proof fn lemma_interrupted_save_restores(
    config: Config,
    network: Network,
    fs: FileSystem,
    written: Option<Seq<u8>>,
    state: Seq<u8>,
)
    requires
        config.wf(),
        fs.contains_key(config.data_path.at(network)@),
        !fs.contains_key(config.backup_data_path.at(network)@),
    ensures
        ({
            let p = config.data_path.at(network)@;
            let b = config.backup_data_path.at(network)@;
            let moved = apply_op(fs, config.save_ops(network)[0], state)->0;
            let crashed = match written {
                Some(bytes) => moved.insert(p, bytes),
                None => moved,
            };
            let plan = config.restore_ops(network, kind_in(crashed, b), kind_in(crashed, p));
            &&& plan is Ok
            &&& apply_ops(crashed, plan->Ok_0, state) == Some(fs)
        }),
{
    let p = config.data_path.at(network)@;
    let b = config.backup_data_path.at(network)@;
    let moved = fs.remove(p).insert(b, fs[p]);
    assert(apply_op(fs, config.save_ops(network)[0], state) == Some(moved));
    let crashed = match written {
        Some(bytes) => moved.insert(p, bytes),
        None => moved,
    };
    assert(crashed.contains_key(b) && crashed[b] == fs[p]);
    let restored = crashed.remove(b).insert(p, fs[p]);
    match written {
        Some(bytes) => {
            let ops = seq![OpModel::Remove(p), OpModel::Rename(b, p)];
            assert(config.restore_ops(network, kind_in(crashed, b), kind_in(crashed, p)) == Ok::<Seq<OpModel>, InvalidFileFormat>(ops));
            let after_remove = crashed.remove(p);
            assert(apply_op(crashed, ops[0], state) == Some(after_remove));
            assert(ops.drop_first() =~= seq![OpModel::Rename(b, p)]);
            assert(after_remove.contains_key(b));
            let after_rename = after_remove.remove(b).insert(p, after_remove[b]);
            assert(apply_op(after_remove, OpModel::Rename(b, p), state) == Some(after_rename));
            assert(seq![OpModel::Rename(b, p)].drop_first() =~= Seq::<OpModel>::empty());
            assert(apply_ops(after_rename, Seq::<OpModel>::empty(), state) == Some(after_rename));
            assert(apply_ops(after_remove, seq![OpModel::Rename(b, p)], state) == Some(after_rename));
            assert(apply_ops(crashed, ops, state) == Some(after_rename));
            assert(after_rename =~= fs);
        },
        None => {
            let ops = seq![OpModel::Rename(b, p)];
            assert(!crashed.contains_key(p));
            assert(config.restore_ops(network, kind_in(crashed, b), kind_in(crashed, p)) == Ok::<Seq<OpModel>, InvalidFileFormat>(ops));
            assert(apply_op(crashed, ops[0], state) == Some(restored));
            assert(ops.drop_first() =~= Seq::<OpModel>::empty());
            assert(apply_ops(restored, Seq::<OpModel>::empty(), state) == Some(restored));
            assert(apply_ops(crashed, ops, state) == Some(restored));
            assert(restored =~= fs);
        },
    }
}

} // verus!
