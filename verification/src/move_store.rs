//! Move the unpacked store tree into `/nix`: find the single unpacked
//! package root in the scratch directory, create `/nix/store` if needed
//! (owned by the build group), move each store entry over, and leave a
//! symlink behind at each moved entry's old path.
//!
//! The model tracks the store entries one level deep: moving an entry
//! moves its node and leaves the back link, as the real rename does for a
//! directory and its contents.

use vstd::prelude::*;
use crate::action::{Action, ActionDescription, ActionState, StatefulAction};
use crate::errors::{ActionError, ActionErrorKind, ActionTag};
use crate::settings::{CommonSettings, spec_scratch_dir, scratch_dir};
use crate::strutil::{concat3, copy_string, starts_with_seq, starts_with_str};
use crate::system::{FsNode, FsNodeV, NodeKind, System, SystemView, is_child_name, with_fs};

verus! {

pub open spec fn nix_store_path() -> Seq<char> {
    "/nix/store"@
}

/// The store directory inside the unpacked package root `c`.
pub open spec fn src_store_path(c: Seq<char>) -> Seq<char> {
    spec_scratch_dir() + "/"@ + c + "/store"@
}

/// The path of entry `n` under `src`.
pub open spec fn src_entry(src: Seq<char>, n: Seq<char>) -> Seq<char> {
    src + "/"@ + n
}

/// The path of entry `n` under `/nix/store`.
pub open spec fn dest_entry(n: Seq<char>) -> Seq<char> {
    nix_store_path() + "/"@ + n
}

/// `c` names an unpacked package root in the scratch directory.
pub open spec fn nix_root(f: Map<Seq<char>, FsNodeV>, c: Seq<char>) -> bool {
    is_child_name(f, spec_scratch_dir(), c) && starts_with_seq(c, "nix-"@)
}

/// `c` is the one and only unpacked package root.
pub open spec fn unique_nix_root(f: Map<Seq<char>, FsNodeV>, c: Seq<char>) -> bool {
    nix_root(f, c) && forall|c2: Seq<char>| #[trigger] nix_root(f, c2) ==> c2 == c
}

/// The filesystem after creating `/nix/store` if it was missing.
pub open spec fn store_dir_fs(f: Map<Seq<char>, FsNodeV>) -> Map<Seq<char>, FsNodeV> {
    if f.contains_key(nix_store_path()) {
        f
    } else {
        f.insert(nix_store_path(), FsNodeV::Dir)
    }
}

/// The filesystem after moving the listed entries, in order: each entry's
/// node moves to its place under `/nix/store`, and a symlink to the new
/// place is left at the old path.
pub open spec fn moved_fs(
    base: Map<Seq<char>, FsNodeV>,
    f0: Map<Seq<char>, FsNodeV>,
    src: Seq<char>,
    names: Seq<Seq<char>>,
) -> Map<Seq<char>, FsNodeV>
    decreases names.len(),
{
    if names.len() == 0 {
        base
    } else {
        let n = names.last();
        moved_fs(base, f0, src, names.drop_last()).insert(dest_entry(n), f0[src_entry(src, n)])
            .insert(src_entry(src, n), FsNodeV::Symlink { target: dest_entry(n) })
    }
}

/// `names` lists exactly the children of `src` in `f0`, without repeats.
pub open spec fn lists_children(
    f0: Map<Seq<char>, FsNodeV>,
    src: Seq<char>,
    names: Seq<Seq<char>>,
) -> bool {
    &&& forall|k: int| 0 <= k < names.len() ==> is_child_name(f0, src, #[trigger] names[k])
    &&& forall|n: Seq<char>|
        #[trigger] is_child_name(f0, src, n) ==> exists|k: int|
            0 <= k < names.len() && names[k] == n
    &&& forall|k1: int, k2: int| 0 <= k1 < k2 < names.len() ==> names[k1] != names[k2]
}

/// The scratch region, the store region and the store directory itself
/// never share a path.
proof fn lemma_regions(c: Seq<char>, n: Seq<char>, n2: Seq<char>)
    ensures
        src_entry(src_store_path(c), n) != dest_entry(n2),
        src_entry(src_store_path(c), n) != nix_store_path(),
        dest_entry(n) != nix_store_path(),
{
    reveal_strlit("/nix/temp-install");
    reveal_strlit("/nix/store");
    reveal_strlit("/");
    let a = src_entry(src_store_path(c), n);
    let b = dest_entry(n2);
    assert(a[5] == 't');
    assert(b[5] == 's');
    assert(dest_entry(n).len() > nix_store_path().len());
    assert(a.len() > nix_store_path().len());
}

/// Entry paths determine their entry names.
proof fn lemma_entry_inj(src: Seq<char>, a: Seq<char>, b: Seq<char>)
    ensures
        src_entry(src, a) == src_entry(src, b) ==> a == b,
        dest_entry(a) == dest_entry(b) ==> a == b,
{
    reveal_strlit("/");
    if src_entry(src, a) == src_entry(src, b) {
        assert(src_entry(src, a).skip(src.len() as int + 1) =~= a);
        assert(src_entry(src, b).skip(src.len() as int + 1) =~= b);
    }
    if dest_entry(a) == dest_entry(b) {
        assert(dest_entry(a).skip(nix_store_path().len() as int + 1) =~= a);
        assert(dest_entry(b).skip(nix_store_path().len() as int + 1) =~= b);
    }
}

/// Keys outside the moved entries keep their `base` binding.
proof fn lemma_moved_preserves(
    base: Map<Seq<char>, FsNodeV>,
    f0: Map<Seq<char>, FsNodeV>,
    src: Seq<char>,
    names: Seq<Seq<char>>,
    k: Seq<char>,
)
    requires
        forall|t: int|
            0 <= t < names.len() ==> k != src_entry(src, #[trigger] names[t]) && k != dest_entry(
                names[t],
            ),
    ensures
        moved_fs(base, f0, src, names).contains_key(k) <==> base.contains_key(k),
        base.contains_key(k) ==> moved_fs(base, f0, src, names)[k] == base[k],
    decreases names.len(),
{
    if names.len() > 0 {
        assert(forall|t: int|
            0 <= t < names.drop_last().len() ==> names.drop_last()[t] == names[t]);
        lemma_moved_preserves(base, f0, src, names.drop_last(), k);
        assert(k != src_entry(src, names.last()) && k != dest_entry(names.last()));
    }
}

/// Move an unpacked store at the scratch directory into `/nix`.
#[derive(Debug)]
pub struct MoveUnpackedNix {
    pub unpacked_path: String,
    pub nix_build_group_name: String,
}

impl MoveUnpackedNix {
    /// Nothing is checked up front: the scratch tree is created by the
    /// fetch step, so planning only records the inputs.
    pub fn plan(settings: &CommonSettings) -> (r: Result<
        StatefulAction<MoveUnpackedNix>,
        ActionError,
    >)
        ensures
            (r matches Ok(w) && {
                &&& w.state == ActionState::Uncompleted
                &&& w.action.unpacked_path@ == spec_scratch_dir()
                &&& w.action.nix_build_group_name@ == settings.nix_build_group_name@
                &&& w.inv()
            }),
    {
        Ok(StatefulAction::uncompleted(MoveUnpackedNix {
            unpacked_path: scratch_dir().to_owned(),
            nix_build_group_name: copy_string(&settings.nix_build_group_name),
        }))
    }
}

impl Action for MoveUnpackedNix {
    open spec fn inv(&self) -> bool {
        self.unpacked_path@ == spec_scratch_dir()
    }

    open spec fn execute_ok(pre: Self, s0: SystemView, post: Self, s1: SystemView) -> bool {
        &&& post == pre
        &&& (s0.fs.contains_key(nix_store_path()) ==> s0.fs[nix_store_path()] is Dir)
        &&& (!s0.fs.contains_key(nix_store_path()) ==> s0.groups.contains_key(
            pre.nix_build_group_name@,
        ))
        &&& exists|c: Seq<char>, names: Seq<Seq<char>>|
            unique_nix_root(s0.fs, c) && #[trigger] lists_children(
                s0.fs,
                src_store_path(c),
                names,
            ) && s1 == with_fs(s0, moved_fs(store_dir_fs(s0.fs), s0.fs, src_store_path(c), names))
    }

    open spec fn execute_err(
        pre: Self,
        s0: SystemView,
        post: Self,
        s1: SystemView,
        e: ActionError,
    ) -> bool {
        &&& post == pre
        &&& s1 == s0
        &&& e.action_tag@ == "move_unpacked_nix"@
        &&& {
            ||| (!(exists|c: Seq<char>| #[trigger] unique_nix_root(s0.fs, c)) && e.kind
                is MalformedBinaryTarball)
            ||| ((exists|c: Seq<char>| #[trigger] unique_nix_root(s0.fs, c))
                && s0.fs.contains_key(nix_store_path()) && !(s0.fs[nix_store_path()] is Dir) && (
            e.kind matches ActionErrorKind::PathWasNotDirectory(p) && p@ == nix_store_path()))
            ||| ((exists|c: Seq<char>| #[trigger] unique_nix_root(s0.fs, c))
                && !s0.fs.contains_key(nix_store_path()) && !s0.groups.contains_key(
                pre.nix_build_group_name@,
            ) && (e.kind matches ActionErrorKind::NoGroup(g) && g@ == pre.nix_build_group_name@))
        }
    }

    open spec fn revert_ok(pre: Self, s0: SystemView, post: Self, s1: SystemView) -> bool {
        post == pre && s1 == s0
    }

    open spec fn revert_err(
        pre: Self,
        s0: SystemView,
        post: Self,
        s1: SystemView,
        e: ActionError,
    ) -> bool {
        false
    }

    fn action_tag(&self) -> (t: ActionTag)
        ensures
            t@ == "move_unpacked_nix"@,
    {
        ActionTag("move_unpacked_nix")
    }

    fn tracing_synopsis(&self) -> String {
        String::from_str("Move the downloaded Nix into `/nix`")
    }

    fn execute_description(&self) -> (r: Vec<ActionDescription>)
        ensures
            r@.len() == 1,
    {
        vec![ActionDescription::new(
            self.tracing_synopsis(),
            vec![
                concat3(
                    "Nix is being downloaded to `",
                    self.unpacked_path.as_str(),
                    "` and should be in `/nix`",
                ),
            ],
        )]
    }

    fn revert_description(&self) -> (r: Vec<ActionDescription>)
        ensures
            r@.len() == 0,
    {
        Vec::new()
    }

    fn execute(&mut self, sys: &mut System) -> (r: Result<(), ActionError>) {
        let ghost this0 = *self;
        let ghost s0 = sys@;
        let roots = sys.fs_children(&self.unpacked_path);
        let mut found: Vec<String> = Vec::new();
        let n_roots = roots.len();
        let mut i: usize = 0;
        while i < n_roots
            invariant
                s0 == sys@,
                this0 == *self,
                self.inv(),
                sys.inv(),
                n_roots == roots@.len(),
                0 <= i <= n_roots,
                forall|k: int|
                    0 <= k < roots@.len() ==> #[trigger] is_child_name(
                        s0.fs,
                        spec_scratch_dir(),
                        roots@[k]@,
                    ),
                forall|n: Seq<char>|
                    #[trigger] is_child_name(s0.fs, spec_scratch_dir(), n) ==> exists|k: int|
                        0 <= k < roots@.len() && roots@[k]@ == n,
                forall|k1: int, k2: int|
                    0 <= k1 < k2 < roots@.len() ==> roots@[k1]@ != roots@[k2]@,
                forall|k: int| 0 <= k < found@.len() ==> nix_root(s0.fs, #[trigger] found@[k]@),
                forall|k: int|
                    0 <= k < found@.len() ==> exists|j: int|
                        0 <= j < i && roots@[j]@ == (#[trigger] found@[k]@),
                forall|j: int|
                    0 <= j < i && starts_with_seq(#[trigger] roots@[j]@, "nix-"@) ==> exists|
                        k: int,
                    | 0 <= k < found@.len() && found@[k]@ == roots@[j]@,
                forall|k1: int, k2: int| 0 <= k1 < k2 < found@.len() ==> found@[k1]@ != found@[k2]@,
            decreases n_roots - i,
        {
            let ghost prev_found = found@;
            if starts_with_str(roots[i].as_str(), "nix-") {
                proof {
                    assert forall|k: int| 0 <= k < prev_found.len() implies prev_found[k]@
                        != roots@[i as int]@ by {
                        let j = choose|j: int| 0 <= j < i && roots@[j]@ == prev_found[k]@;
                    }
                }
                found.push(copy_string(&roots[i]));
                proof {
                    assert(found@[found@.len() - 1]@ == roots@[i as int]@);
                }
            }
            proof {
                assert forall|j: int|
                    0 <= j < i + 1 && starts_with_seq(#[trigger] roots@[j]@, "nix-"@) implies exists|
                    k: int,
                | 0 <= k < found@.len() && found@[k]@ == roots@[j]@ by {
                    if j < i {
                        let k = choose|k: int|
                            0 <= k < prev_found.len() && prev_found[k]@ == roots@[j]@;
                        assert(found@[k]@ == roots@[j]@);
                    }
                }
            }
            i += 1;
        }
        if found.len() != 1 {
            proof {
                if exists|c: Seq<char>| #[trigger] unique_nix_root(s0.fs, c) {
                    let c = choose|c: Seq<char>| #[trigger] unique_nix_root(s0.fs, c);
                    let j = choose|j: int| 0 <= j < roots@.len() && roots@[j]@ == c;
                    let k = choose|k: int| 0 <= k < found@.len() && found@[k]@ == roots@[j]@;
                    if found@.len() >= 2 {
                        assert(nix_root(s0.fs, found@[0]@));
                        assert(nix_root(s0.fs, found@[1]@));
                        assert(found@[0]@ == c && found@[1]@ == c);
                        assert(false);
                    }
                    assert(false);
                }
            }
            return Err(ActionError::new(
                ActionTag("move_unpacked_nix"),
                ActionErrorKind::MalformedBinaryTarball,
            ));
        }
        let root = copy_string(&found[0]);
        proof {
            assert(nix_root(s0.fs, root@));
            assert forall|c2: Seq<char>| #[trigger] nix_root(s0.fs, c2) implies c2 == root@ by {
                let j = choose|j: int| 0 <= j < roots@.len() && roots@[j]@ == c2;
                let k = choose|k: int| 0 <= k < found@.len() && found@[k]@ == roots@[j]@;
            }
            assert(unique_nix_root(s0.fs, root@));
        }
        let mut src_store = concat3(self.unpacked_path.as_str(), "/", root.as_str());
        src_store.append("/store");
        proof {
            assert(src_store@ =~= src_store_path(root@));
        }
        let names = sys.fs_children(&src_store);
        let ghost views = Seq::new(names@.len(), |k: int| names@[k]@);
        proof {
            assert(lists_children(s0.fs, src_store_path(root@), views)) by {
                assert forall|k: int| 0 <= k < views.len() implies is_child_name(
                    s0.fs,
                    src_store_path(root@),
                    #[trigger] views[k],
                ) by {
                    assert(is_child_name(s0.fs, src_store@, names@[k]@));
                }
                assert forall|n: Seq<char>| #[trigger] is_child_name(
                    s0.fs,
                    src_store_path(root@),
                    n,
                ) implies exists|k: int| 0 <= k < views.len() && views[k] == n by {
                    assert(is_child_name(s0.fs, src_store@, n));
                    let k = choose|k: int| 0 <= k < names@.len() && names@[k]@ == n;
                    assert(views[k] == n);
                }
            }
        }
        let store = String::from_str("/nix/store");
        match sys.fs_node_kind(&store) {
            NodeKind::IsDir => {},
            NodeKind::IsFile | NodeKind::IsSymlink => {
                return Err(ActionError::new(
                    ActionTag("move_unpacked_nix"),
                    ActionErrorKind::PathWasNotDirectory(store),
                ));
            },
            NodeKind::Missing => {
                match sys.group_get(&self.nix_build_group_name) {
                    None => {
                        return Err(ActionError::new(
                            ActionTag("move_unpacked_nix"),
                            ActionErrorKind::NoGroup(copy_string(&self.nix_build_group_name)),
                        ));
                    },
                    Some(_) => {
                        sys.fs_set(copy_string(&store), FsNode::Dir);
                    },
                }
            },
        }
        let ghost base = sys@.fs;
        proof {
            assert(base =~= store_dir_fs(s0.fs));
            assert(sys@ =~= with_fs(s0, moved_fs(base, s0.fs, src_store_path(root@), views.take(0))));
        }
        let n_entries = names.len();
        let mut t: usize = 0;
        while t < n_entries
            invariant
                this0 == *self,
                self.inv(),
                sys.inv(),
                n_entries == names@.len(),
                views.len() == names@.len(),
                forall|k: int| 0 <= k < views.len() ==> #[trigger] views[k] == names@[k]@,
                0 <= t <= n_entries,
                src_store@ == src_store_path(root@),
                base == store_dir_fs(s0.fs),
                lists_children(s0.fs, src_store_path(root@), views),
                s0.fs.contains_key(nix_store_path()) ==> s0.fs[nix_store_path()] is Dir,
                !s0.fs.contains_key(nix_store_path()) ==> s0.groups.contains_key(
                    this0.nix_build_group_name@,
                ),
                sys@ == with_fs(
                    s0,
                    moved_fs(base, s0.fs, src_store_path(root@), views.take(t as int)),
                ),
            decreases n_entries - t,
        {
            let name = &names[t];
            let src_path = concat3(src_store.as_str(), "/", name.as_str());
            let dest_path = concat3("/nix/store", "/", name.as_str());
            proof {
                assert(src_path@ == src_entry(src_store_path(root@), views[t as int]));
                assert(dest_path@ == dest_entry(views[t as int]));
                assert forall|u: int|
                    0 <= u < views.take(t as int).len() implies src_path@ != src_entry(
                    src_store_path(root@),
                    #[trigger] views.take(t as int)[u],
                ) && src_path@ != dest_entry(views.take(t as int)[u]) by {
                    assert(views.take(t as int)[u] == views[u]);
                    lemma_regions(root@, views[t as int], views[u]);
                    lemma_entry_inj(src_store_path(root@), views[t as int], views[u]);
                }
                lemma_moved_preserves(
                    base,
                    s0.fs,
                    src_store_path(root@),
                    views.take(t as int),
                    src_path@,
                );
                lemma_regions(root@, views[t as int], views[t as int]);
                assert(base.contains_key(src_path@) <==> s0.fs.contains_key(src_path@));
                assert(is_child_name(s0.fs, src_store_path(root@), views[t as int]));
                assert(s0.fs.contains_key(src_path@));
            }
            let node = match sys.fs_get(&src_path) {
                Some(n) => clone_node(n),
                None => {
                    proof {
                        assert(false);
                    }
                    FsNode::Dir
                },
            };
            proof {
                assert(node@ == s0.fs[src_path@]);
            }
            sys.fs_set(copy_string(&dest_path), node);
            sys.fs_set(copy_string(&src_path), FsNode::Symlink { target: dest_path });
            proof {
                assert(views.take(t + 1).drop_last() =~= views.take(t as int));
                assert(views.take(t + 1).last() == views[t as int]);
                assert(sys@ =~= with_fs(
                    s0,
                    moved_fs(base, s0.fs, src_store_path(root@), views.take(t + 1)),
                ));
            }
            t += 1;
        }
        proof {
            assert(views.take(n_entries as int) =~= views);
        }
        Ok(())
    }

    fn revert(&mut self, sys: &mut System) -> (r: Result<(), ActionError>) {
        Ok(())
    }
}

/// A structural copy of a filesystem node.
pub fn clone_node(n: &FsNode) -> (r: FsNode)
    ensures
        r@ == n@,
{
    match n {
        FsNode::Dir => FsNode::Dir,
        FsNode::File { content } => FsNode::File { content: copy_string(content) },
        FsNode::Symlink { target } => FsNode::Symlink { target: copy_string(target) },
    }
}

/// Failures while searching the scratch directory for the unpacked root.
#[derive(Debug)]
pub enum MoveUnpackedNixError {
    /// The search pattern was malformed; the message is kept for
    /// diagnosis.
    GlobPatternError(String),
    /// Walking the scratch directory failed; the message is kept for
    /// diagnosis.
    GlobGlobError(String),
}

impl MoveUnpackedNixError {
    /// Carry this failure through the engine's taxonomy.
    pub fn into_kind(self) -> (r: ActionErrorKind)
        ensures
            r is Custom,
    {
        match self {
            MoveUnpackedNixError::GlobPatternError(msg) => ActionErrorKind::Custom(msg),
            MoveUnpackedNixError::GlobGlobError(msg) => ActionErrorKind::Custom(msg),
        }
    }
}

/// The bindings a finished move gives the two entry paths of `names[t]`.
proof fn lemma_moved_fs_values(
    base: Map<Seq<char>, FsNodeV>,
    f0: Map<Seq<char>, FsNodeV>,
    c: Seq<char>,
    names: Seq<Seq<char>>,
    t: int,
)
    requires
        0 <= t < names.len(),
        forall|k1: int, k2: int| 0 <= k1 < k2 < names.len() ==> names[k1] != names[k2],
    ensures
        moved_fs(base, f0, src_store_path(c), names).contains_key(dest_entry(names[t])),
        moved_fs(base, f0, src_store_path(c), names)[dest_entry(names[t])] == f0[src_entry(
            src_store_path(c),
            names[t],
        )],
        moved_fs(base, f0, src_store_path(c), names).contains_key(
            src_entry(src_store_path(c), names[t]),
        ),
        moved_fs(base, f0, src_store_path(c), names)[src_entry(src_store_path(c), names[t])]
            == (FsNodeV::Symlink { target: dest_entry(names[t]) }),
    decreases names.len(),
{
    let src = src_store_path(c);
    let last = names.last();
    lemma_regions(c, names[t], last);
    lemma_regions(c, last, names[t]);
    if t == names.len() - 1 {
    } else {
        assert(forall|k1: int, k2: int|
            0 <= k1 < k2 < names.drop_last().len() ==> names.drop_last()[k1]
                != names.drop_last()[k2]);
        assert(names.drop_last()[t] == names[t]);
        lemma_moved_fs_values(base, f0, c, names.drop_last(), t);
        assert(names[t] != last);
        lemma_entry_inj(src, names[t], last);
    }
}

/// What a successful move left on the host, entry by entry: under the
/// one unpacked package root, every store entry now sits under
/// `/nix/store` with its old node, and a symlink to the new place stands
/// at its old path.
pub proof fn lemma_move_unpacked_facts(
    pre: MoveUnpackedNix,
    s0: SystemView,
    post: MoveUnpackedNix,
    s1: SystemView,
)
    requires
        MoveUnpackedNix::execute_ok(pre, s0, post, s1),
    ensures
        exists|c: Seq<char>|
            #[trigger] unique_nix_root(s0.fs, c) && forall|n: Seq<char>|
                #[trigger] is_child_name(s0.fs, src_store_path(c), n) ==> {
                    &&& s1.fs.contains_key(dest_entry(n))
                    &&& s1.fs[dest_entry(n)] == s0.fs[src_entry(src_store_path(c), n)]
                    &&& s1.fs.contains_key(src_entry(src_store_path(c), n))
                    &&& s1.fs[src_entry(src_store_path(c), n)] == (FsNodeV::Symlink {
                        target: dest_entry(n),
                    })
                },
{
    let (c, names) = choose|c: Seq<char>, names: Seq<Seq<char>>|
        unique_nix_root(s0.fs, c) && #[trigger] lists_children(
            s0.fs,
            src_store_path(c),
            names,
        ) && s1 == with_fs(s0, moved_fs(store_dir_fs(s0.fs), s0.fs, src_store_path(c), names));
    let src = src_store_path(c);
    assert forall|n: Seq<char>| #[trigger] is_child_name(s0.fs, src, n) implies {
        &&& s1.fs.contains_key(dest_entry(n))
        &&& s1.fs[dest_entry(n)] == s0.fs[src_entry(src, n)]
        &&& s1.fs.contains_key(src_entry(src, n))
        &&& s1.fs[src_entry(src, n)] == (FsNodeV::Symlink { target: dest_entry(n) })
    } by {
        let t = choose|t: int| 0 <= t < names.len() && names[t] == n;
        lemma_moved_fs_values(store_dir_fs(s0.fs), s0.fs, c, names, t);
    }
}

} // verus!


