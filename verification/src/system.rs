//! The model of the observable host state that actions mutate: a
//! filesystem slice (paths to directories, files and symlinks), the init
//! system's units, the disk subsystem's volumes, the groups database, and
//! whether the `systemctl` binary is on the search path.
//!
//! The host process interprets this model against the real machine; every
//! action's contract is stated over the model's view.

use vstd::prelude::*;
use crate::strutil::{contains_seq, contains_str, concat_str, starts_with_seq, starts_with_str, str_len};
use crate::table::NamedTable;

verus! {

/// One node of the modelled filesystem.
#[derive(Clone, Debug)]
pub enum FsNode {
    Dir,
    File { content: String },
    Symlink { target: String },
}

/// The shape of a filesystem node at the specification level.
#[verifier::ext_equal]
pub enum FsNodeV {
    Dir,
    File { content: Seq<char> },
    Symlink { target: Seq<char> },
}

impl View for FsNode {
    type V = FsNodeV;

    open spec fn view(&self) -> FsNodeV {
        match self {
            FsNode::Dir => FsNodeV::Dir,
            FsNode::File { content } => FsNodeV::File { content: content@ },
            FsNode::Symlink { target } => FsNodeV::Symlink { target: target@ },
        }
    }
}

/// State of one init unit (a systemd unit or a launchd service).
#[derive(Clone, Copy, Debug, PartialEq, Eq, Structural)]
pub struct UnitRecord {
    pub active: bool,
    pub enabled: bool,
}

impl View for UnitRecord {
    type V = UnitRecord;

    open spec fn view(&self) -> UnitRecord {
        *self
    }
}

/// State of one disk volume.
#[derive(Clone, Copy, Debug, PartialEq, Eq, Structural)]
pub struct VolumeRecord {
    pub mounted: bool,
    pub encrypted: bool,
}

impl View for VolumeRecord {
    type V = VolumeRecord;

    open spec fn view(&self) -> VolumeRecord {
        *self
    }
}

/// One entry of the groups database.
#[derive(Clone, Copy, Debug, PartialEq, Eq, Structural)]
pub struct GroupRecord {
    pub gid: u32,
}

impl View for GroupRecord {
    type V = GroupRecord;

    open spec fn view(&self) -> GroupRecord {
        *self
    }
}

/// The observable host state.
pub struct System {
    pub fs: NamedTable<FsNode>,
    pub units: NamedTable<UnitRecord>,
    pub volumes: NamedTable<VolumeRecord>,
    pub groups: NamedTable<GroupRecord>,
    pub systemctl_on_path: bool,
}

/// The host state at the specification level.
#[verifier::ext_equal]
pub struct SystemView {
    pub fs: Map<Seq<char>, FsNodeV>,
    pub units: Map<Seq<char>, UnitRecord>,
    pub volumes: Map<Seq<char>, VolumeRecord>,
    pub groups: Map<Seq<char>, GroupRecord>,
    pub systemctl_on_path: bool,
}

impl View for System {
    type V = SystemView;

    open spec fn view(&self) -> SystemView {
        SystemView {
            fs: self.fs@,
            units: self.units@,
            volumes: self.volumes@,
            groups: self.groups@,
            systemctl_on_path: self.systemctl_on_path,
        }
    }
}

/// `sv` with its filesystem replaced.
pub open spec fn with_fs(sv: SystemView, fs: Map<Seq<char>, FsNodeV>) -> SystemView {
    SystemView { fs, ..sv }
}

/// `sv` with its units replaced.
pub open spec fn with_units(sv: SystemView, units: Map<Seq<char>, UnitRecord>) -> SystemView {
    SystemView { units, ..sv }
}

/// `sv` with its volumes replaced.
pub open spec fn with_volumes(sv: SystemView, volumes: Map<Seq<char>, VolumeRecord>) -> SystemView {
    SystemView { volumes, ..sv }
}

impl System {
    pub open spec fn inv(&self) -> bool {
        self.fs.inv() && self.units.inv() && self.volumes.inv() && self.groups.inv()
    }

    /// A host with nothing in it.
    pub fn empty() -> (r: System)
        ensures
            r.inv(),
            r@.fs == Map::<Seq<char>, FsNodeV>::empty(),
            r@.units == Map::<Seq<char>, UnitRecord>::empty(),
            r@.volumes == Map::<Seq<char>, VolumeRecord>::empty(),
            r@.groups == Map::<Seq<char>, GroupRecord>::empty(),
            r@.systemctl_on_path == false,
    {
        System {
            fs: NamedTable::new(),
            units: NamedTable::new(),
            volumes: NamedTable::new(),
            groups: NamedTable::new(),
            systemctl_on_path: false,
        }
    }

    /// The node at `path`, if any.
    pub fn fs_get(&self, path: &String) -> (r: Option<&FsNode>)
        requires
            self.inv(),
        ensures
            match r {
                Some(n) => self@.fs.contains_key(path@) && n@ == self@.fs[path@],
                None => !self@.fs.contains_key(path@),
            },
    {
        self.fs.get(path)
    }

    /// Whether anything exists at `path`.
    pub fn fs_contains(&self, path: &String) -> (r: bool)
        requires
            self.inv(),
        ensures
            r == self@.fs.contains_key(path@),
    {
        self.fs.contains(path)
    }

    /// Place `node` at `path`, replacing whatever was there.
    pub fn fs_set(&mut self, path: String, node: FsNode)
        requires
            old(self).inv(),
        ensures
            final(self).inv(),
            final(self)@ == with_fs(old(self)@, old(self)@.fs.insert(path@, node@)),
    {
        self.fs.set(path, node);
    }

    /// Drop whatever is at `path`.
    pub fn fs_remove(&mut self, path: &String)
        requires
            old(self).inv(),
        ensures
            final(self).inv(),
            final(self)@ == with_fs(old(self)@, old(self)@.fs.remove(path@)),
    {
        self.fs.remove(path);
    }

    /// The state of the unit named `name`, if the init system knows it.
    pub fn unit_get(&self, name: &String) -> (r: Option<UnitRecord>)
        requires
            self.inv(),
        ensures
            match r {
                Some(u) => self@.units.contains_key(name@) && u == self@.units[name@],
                None => !self@.units.contains_key(name@),
            },
    {
        match self.units.get(name) {
            Some(u) => Some(*u),
            None => None,
        }
    }

    /// Record the state of the unit named `name`.
    pub fn unit_set(&mut self, name: String, rec: UnitRecord)
        requires
            old(self).inv(),
        ensures
            final(self).inv(),
            final(self)@ == with_units(old(self)@, old(self)@.units.insert(name@, rec)),
    {
        self.units.set(name, rec);
    }

    /// Forget the unit named `name`.
    pub fn unit_remove(&mut self, name: &String)
        requires
            old(self).inv(),
        ensures
            final(self).inv(),
            final(self)@ == with_units(old(self)@, old(self)@.units.remove(name@)),
    {
        self.units.remove(name);
    }

    /// The state of the volume named `name`, if the disk subsystem knows it.
    pub fn volume_get(&self, name: &String) -> (r: Option<VolumeRecord>)
        requires
            self.inv(),
        ensures
            match r {
                Some(v) => self@.volumes.contains_key(name@) && v == self@.volumes[name@],
                None => !self@.volumes.contains_key(name@),
            },
    {
        match self.volumes.get(name) {
            Some(v) => Some(*v),
            None => None,
        }
    }

    /// Record the state of the volume named `name`.
    pub fn volume_set(&mut self, name: String, rec: VolumeRecord)
        requires
            old(self).inv(),
        ensures
            final(self).inv(),
            final(self)@ == with_volumes(old(self)@, old(self)@.volumes.insert(name@, rec)),
    {
        self.volumes.set(name, rec);
    }

    /// The groups database entry named `name`, if any.
    pub fn group_get(&self, name: &String) -> (r: Option<GroupRecord>)
        requires
            self.inv(),
        ensures
            match r {
                Some(g) => self@.groups.contains_key(name@) && g == self@.groups[name@],
                None => !self@.groups.contains_key(name@),
            },
    {
        match self.groups.get(name) {
            Some(g) => Some(*g),
            None => None,
        }
    }
}

/// The coarse kind of the node at a path.
#[derive(Clone, Copy, Debug, PartialEq, Eq, Structural)]
pub enum NodeKind {
    Missing,
    IsDir,
    IsFile,
    IsSymlink,
}

impl System {
    /// What kind of node, if any, sits at `path`.
    pub fn fs_node_kind(&self, path: &String) -> (k: NodeKind)
        requires
            self.inv(),
        ensures
            match k {
                NodeKind::Missing => !self@.fs.contains_key(path@),
                NodeKind::IsDir => self@.fs.contains_key(path@) && self@.fs[path@] is Dir,
                NodeKind::IsFile => self@.fs.contains_key(path@) && self@.fs[path@] is File,
                NodeKind::IsSymlink => self@.fs.contains_key(path@) && self@.fs[path@] is Symlink,
            },
    {
        match self.fs_get(path) {
            None => NodeKind::Missing,
            Some(n) => match n {
                FsNode::Dir => NodeKind::IsDir,
                FsNode::File { .. } => NodeKind::IsFile,
                FsNode::Symlink { .. } => NodeKind::IsSymlink,
            },
        }
    }

    /// The content of the file at `path`, if a file sits there.
    pub fn fs_file_content(&self, path: &String) -> (r: Option<String>)
        requires
            self.inv(),
        ensures
            match r {
                Some(c) => self@.fs.contains_key(path@) && (self@.fs[path@] matches FsNodeV::File {
                    content,
                } && c@ == content),
                None => !self@.fs.contains_key(path@) || !(self@.fs[path@] is File),
            },
    {
        match self.fs_get(path) {
            Some(n) => match n {
                FsNode::File { content } => Some(content.clone()),
                _ => None,
            },
            None => None,
        }
    }

    /// The target of the symlink at `path`, if a symlink sits there.
    pub fn fs_symlink_target(&self, path: &String) -> (r: Option<String>)
        requires
            self.inv(),
        ensures
            match r {
                Some(t) => self@.fs.contains_key(path@) && (self@.fs[path@] matches FsNodeV::Symlink {
                    target,
                } && t@ == target),
                None => !self@.fs.contains_key(path@) || !(self@.fs[path@] is Symlink),
            },
    {
        match self.fs_get(path) {
            Some(n) => match n {
                FsNode::Symlink { target } => Some(target.clone()),
                _ => None,
            },
            None => None,
        }
    }
}

/// `n` names a direct child of `dir`: non-empty, slash-free, and the
/// path `dir/n` exists.
pub open spec fn is_child_name(f: Map<Seq<char>, FsNodeV>, dir: Seq<char>, n: Seq<char>) -> bool {
    n.len() > 0 && !contains_seq(n, "/"@) && f.contains_key(dir + "/"@ + n)
}

/// `path` is shaped like a direct child of `dir`.
pub open spec fn path_is_child(path: Seq<char>, dir: Seq<char>) -> bool {
    &&& path.len() > dir.len() + 1
    &&& path.subrange(0, dir.len() as int + 1) == dir + "/"@
    &&& !contains_seq(path.skip(dir.len() as int + 1), "/"@)
}

impl System {
    /// The names of the direct children of `dir`: each result is a child,
    /// every child appears, and no name appears twice.
    pub fn fs_children(&self, dir: &String) -> (r: Vec<String>)
        requires
            self.inv(),
        ensures
            forall|k: int|
                0 <= k < r@.len() ==> #[trigger] is_child_name(self@.fs, dir@, r@[k]@),
            forall|n: Seq<char>|
                #[trigger] is_child_name(self@.fs, dir@, n) ==> exists|k: int|
                    0 <= k < r@.len() && r@[k]@ == n,
            forall|k1: int, k2: int| 0 <= k1 < k2 < r@.len() ==> r@[k1]@ != r@[k2]@,
    {
        proof {
            reveal_strlit("/");
        }
        let prefix = concat_str(dir.as_str(), "/");
        let plen = str_len(prefix.as_str());
        let mut out: Vec<String> = Vec::new();
        let n_rows = self.fs.rows.len();
        let mut i: usize = 0;
        while i < n_rows
            invariant
                self.inv(),
                prefix@ == dir@ + "/"@,
                plen == prefix@.len(),
                plen == dir@.len() + 1,
                n_rows == self.fs.rows@.len(),
                0 <= i <= n_rows,
                forall|k: int|
                    0 <= k < out@.len() ==> #[trigger] is_child_name(self@.fs, dir@, out@[k]@),
                forall|k: int|
                    0 <= k < out@.len() ==> exists|j: int|
                        0 <= j < i && self.fs.rows@[j].name@ == dir@ + "/"@
                            + (#[trigger] out@[k]@),
                forall|j: int|
                    0 <= j < i && path_is_child(#[trigger] self.fs.rows@[j].name@, dir@)
                        ==> exists|k: int|
                        0 <= k < out@.len() && out@[k]@ == self.fs.rows@[j].name@.skip(
                            dir@.len() as int + 1,
                        ),
                forall|k1: int, k2: int| 0 <= k1 < k2 < out@.len() ==> out@[k1]@ != out@[k2]@,
            decreases n_rows - i,
        {
            let path = &self.fs.rows[i].name;
            let path_len = str_len(path.as_str());
            let ghost prev_out = out@;
            if path_len > plen && starts_with_str(path.as_str(), prefix.as_str()) {
                let rem = path.as_str().substring_char(plen, path_len).to_owned();
                proof {
                    assert(path@ =~= dir@ + "/"@ + rem@);
                    assert(rem@ =~= path@.skip(dir@.len() as int + 1));
                }
                if !contains_str(rem.as_str(), "/") {
                    proof {
                        NamedTable::<FsNode>::lemma_index(self.fs.rows@, i as int);
                        assert(self@.fs.contains_key(dir@ + "/"@ + rem@));
                        assert(is_child_name(self@.fs, dir@, rem@));
                        assert(path_is_child(path@, dir@));
                        assert forall|k: int| 0 <= k < prev_out.len() implies prev_out[k]@
                            != rem@ by {
                            let j = choose|j: int|
                                0 <= j < i && self.fs.rows@[j].name@ == dir@ + "/"@
                                    + (prev_out[k]@);
                            if prev_out[k]@ == rem@ {
                                assert(self.fs.rows@[j].name@ == self.fs.rows@[i as int].name@);
                            }
                        }
                    }
                    out.push(rem);
                    proof {
                        assert(out@[out@.len() - 1]@ == path@.skip(dir@.len() as int + 1));
                    }
                } else {
                    proof {
                        assert(!path_is_child(path@, dir@));
                    }
                }
            } else {
                proof {
                    if path_is_child(path@, dir@) {
                        assert(path@.subrange(0, dir@.len() as int + 1) == prefix@);
                        assert(starts_with_seq(path@, prefix@));
                        assert(false);
                    }
                }
            }
            proof {
                assert forall|j: int|
                    0 <= j < i + 1 && path_is_child(
                        #[trigger] self.fs.rows@[j].name@,
                        dir@,
                    ) implies exists|k: int|
                    0 <= k < out@.len() && out@[k]@ == self.fs.rows@[j].name@.skip(
                        dir@.len() as int + 1,
                    ) by {
                    if j < i {
                        let k = choose|k: int|
                            0 <= k < prev_out.len() && prev_out[k]@ == self.fs.rows@[j].name@.skip(
                                dir@.len() as int + 1,
                            );
                        assert(out@[k]@ == self.fs.rows@[j].name@.skip(dir@.len() as int + 1));
                    }
                }
            }
            i += 1;
        }
        proof {
            assert forall|n: Seq<char>| #[trigger] is_child_name(self@.fs, dir@, n) implies exists|
                k: int,
            | 0 <= k < out@.len() && out@[k]@ == n by {
                NamedTable::<FsNode>::lemma_dom_key(self.fs.rows@, dir@ + "/"@ + n);
                let j = choose|j: int|
                    0 <= j < self.fs.rows@.len() && (#[trigger] self.fs.rows@[j].name@) == dir@
                        + "/"@ + n;
                assert(self.fs.rows@[j].name@.subrange(0, dir@.len() as int + 1) =~= dir@ + "/"@);
                assert(self.fs.rows@[j].name@.skip(dir@.len() as int + 1) =~= n);
                assert(path_is_child(self.fs.rows@[j].name@, dir@));
            }
        }
        out
    }
}

} // verus!


