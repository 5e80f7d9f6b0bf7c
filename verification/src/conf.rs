//! The engine's own model of a `nix.conf` settings map: unique keys,
//! insertion order kept, a verified renderer, and a thin trusted wrapper
//! around the outside parser for existing configuration text.

use vstd::prelude::*;
use crate::action::{Action, ActionDescription, ActionState, StatefulAction};
use crate::errors::{ActionError, ActionErrorKind, ActionTag};
use crate::strutil::{concat3, copy_string};
use crate::system::{FsNode, FsNodeV, NodeKind, System, SystemView, with_fs};
use crate::table::{NamedRow, NamedTable};

verus! {

/// A `nix.conf` settings map: setting name to space-delimited value.
#[derive(Debug)]
pub struct NixConfig {
    pub settings: NamedTable<String>,
}

impl View for NixConfig {
    type V = Map<Seq<char>, Seq<char>>;

    open spec fn view(&self) -> Map<Seq<char>, Seq<char>> {
        self.settings@
    }
}

impl NixConfig {
    pub open spec fn inv(&self) -> bool {
        self.settings.inv()
    }

    /// An empty settings map.
    pub fn new() -> (r: NixConfig)
        ensures
            r.inv(),
            r@ == Map::<Seq<char>, Seq<char>>::empty(),
    {
        NixConfig { settings: NamedTable::new() }
    }

    /// Store `value` under `name`, replacing any previous value.
    pub fn set(&mut self, name: String, value: String)
        requires
            old(self).inv(),
        ensures
            final(self).inv(),
            final(self)@ == old(self)@.insert(name@, value@),
    {
        self.settings.set(name, value);
    }

    /// The value stored under `name`, if any.
    pub fn get(&self, name: &String) -> (r: Option<&String>)
        requires
            self.inv(),
        ensures
            match r {
                Some(v) => self@.contains_key(name@) && v@ == self@[name@],
                None => !self@.contains_key(name@),
            },
    {
        self.settings.get(name)
    }
}

/// The map a list of key/value pairs denotes, later pairs overriding
/// earlier ones.
pub open spec fn pairs_map(s: Seq<(String, String)>) -> Map<Seq<char>, Seq<char>>
    decreases s.len(),
{
    if s.len() == 0 {
        Map::empty()
    } else {
        pairs_map(s.drop_last()).insert(s.last().0@, s.last().1@)
    }
}

/// Relies on `nix_config_parser::NixConfig::parse_string`: parses
/// `nix.conf` text into settings pairs.  An `include` line makes the
/// parser read further files from disk, so nothing is promised of the
/// pairs' values; the keys are distinct because the parser collects into
/// a map.  The parse error is carried as its rendered message.
///
/// A cycle of `include` files on disk makes the parser recurse without
/// bound and abort the process; that exposure is the parser's own and no
/// argument of this wrapper can exclude it.
#[verifier::external_body]
pub(crate) fn parse_nix_conf_text(contents: &String) -> (r: Result<Vec<(String, String)>, String>)
    ensures
        r matches Ok(v) ==> forall|i: int, j: int|
            0 <= i < j < v@.len() ==> v@[i].0@ != v@[j].0@,
{
    match nix_config_parser::NixConfig::parse_string(contents.clone(), None) {
        Ok(conf) => Ok(conf.into_settings().into_iter().collect()),
        Err(e) => Err(e.to_string()),
    }
}

/// The settings map holding exactly the given pairs, later pairs
/// overriding earlier ones.
pub fn from_pairs(pairs: Vec<(String, String)>) -> (r: NixConfig)
    ensures
        r.inv(),
        r@ == pairs_map(pairs@),
{
    let ghost all = pairs@;
    let mut pairs = pairs;
    let mut nc = NixConfig::new();
    let ghost i: int = 0;
    while pairs.len() > 0
        invariant
            nc.inv(),
            0 <= i <= all.len(),
            pairs@ =~= all.skip(i),
            nc@ == pairs_map(all.take(i)),
        decreases pairs@.len(),
    {
        let (name, value) = pairs.remove(0);
        nc.set(name, value);
        proof {
            assert(all.take(i + 1).drop_last() =~= all.take(i));
            assert(all.take(i + 1).last() == all[i]);
            assert(all.skip(i).remove(0) =~= all.skip(i + 1));
            i = i + 1;
        }
    }
    proof {
        assert(all.take(i) =~= all);
    }
    nc
}

/// One rendered settings line.
pub open spec fn render_line(name: Seq<char>, val: Seq<char>) -> Seq<char> {
    name + " = "@ + val + "\n"@
}

/// The rendered text of a whole settings map, one line per setting in
/// insertion order.
pub open spec fn render_spec(rows: Seq<NamedRow<String>>) -> Seq<char>
    decreases rows.len(),
{
    if rows.len() == 0 {
        Seq::empty()
    } else {
        render_spec(rows.drop_last()) + render_line(rows.last().name@, rows.last().val@)
    }
}

/// Render a settings map as `nix.conf` text.
pub fn render(nc: &NixConfig) -> (r: String)
    ensures
        r@ == render_spec(nc.settings.rows@),
{
    let mut out = String::new();
    let n = nc.settings.rows.len();
    let mut i: usize = 0;
    while i < n
        invariant
            n == nc.settings.rows@.len(),
            0 <= i <= n,
            out@ == render_spec(nc.settings.rows@.take(i as int)),
        decreases n - i,
    {
        out.append(nc.settings.rows[i].name.as_str());
        out.append(" = ");
        out.append(nc.settings.rows[i].val.as_str());
        out.append("\n");
        proof {
            assert(nc.settings.rows@.take(i + 1).drop_last() =~= nc.settings.rows@.take(i as int));
            assert(nc.settings.rows@.take(i + 1).last() == nc.settings.rows@[i as int]);
        }
        i += 1;
    }
    proof {
        assert(nc.settings.rows@.take(n as int) =~= nc.settings.rows@);
    }
    out
}

/// A settings map holding `base`'s settings with `overlay`'s inserted
/// over them: on a shared key, `overlay` wins.
pub fn merge(base: NixConfig, overlay: &NixConfig) -> (r: NixConfig)
    requires
        base.inv(),
        overlay.inv(),
    ensures
        r.inv(),
        r@ == base@.union_prefer_right(overlay@),
{
    let ghost base0 = base@;
    let ghost rows = overlay.settings.rows@;
    let mut out = base;
    let n = overlay.settings.rows.len();
    let mut i: usize = 0;
    proof {
        assert(NamedTable::<String>::map_of(rows.take(0)) =~= Map::<Seq<char>, Seq<char>>::empty());
        assert(out@ =~= base0.union_prefer_right(NamedTable::<String>::map_of(rows.take(0))));
    }
    while i < n
        invariant
            out.inv(),
            overlay.inv(),
            n == rows.len(),
            rows == overlay.settings.rows@,
            0 <= i <= n,
            out@ == base0.union_prefer_right(NamedTable::<String>::map_of(rows.take(i as int))),
        decreases n - i,
    {
        let name = copy_string(&overlay.settings.rows[i].name);
        let value = copy_string(&overlay.settings.rows[i].val);
        out.set(name, value);
        proof {
            assert(rows.take(i + 1).drop_last() =~= rows.take(i as int));
            assert(rows.take(i + 1).last() == rows[i as int]);
            assert(out@ =~= base0.union_prefer_right(
                NamedTable::<String>::map_of(rows.take(i + 1)),
            ));
        }
        i += 1;
    }
    proof {
        assert(rows.take(n as int) =~= rows);
    }
    out
}

/// Place a merged `nix.conf`: create the file, or merge the pending
/// settings over whatever parsable settings the existing file holds.
#[derive(Debug)]
pub struct CreateOrMergeNixConfig {
    pub path: String,
    pub pending_nix_config: NixConfig,
}

impl CreateOrMergeNixConfig {
    /// Decide what to write: with no file at the path, the pending
    /// settings; with an existing parsable file, its settings with the
    /// pending ones merged over them; a file already rendering exactly to
    /// the merged settings satisfies the goal.  An unparsable file and a
    /// non-file node are conflicts.
    pub fn plan(path: String, pending_nix_config: NixConfig, sys: &System) -> (r: Result<
        StatefulAction<CreateOrMergeNixConfig>,
        ActionError,
    >)
        requires
            sys.inv(),
            pending_nix_config.inv(),
        ensures
            match r {
                Ok(w) => {
                    &&& w.action.pending_nix_config.inv()
                    &&& w.action.path == path
                    &&& (!sys@.fs.contains_key(path@) ==> w.action.pending_nix_config@
                        == pending_nix_config@ && w.state == ActionState::Uncompleted)
                    &&& (sys@.fs.contains_key(path@) ==> sys@.fs[path@] is File)
                    &&& (sys@.fs.contains_key(path@) ==> exists|base: Map<Seq<char>, Seq<char>>|
                        w.action.pending_nix_config@ == #[trigger] base.union_prefer_right(
                            pending_nix_config@,
                        ))
                    &&& (sys@.fs.contains_key(path@) ==> (w.state == ActionState::Completed
                        <==> (sys@.fs[path@] matches FsNodeV::File { content } && render_spec(
                        w.action.pending_nix_config.settings.rows@,
                    ) == content)))
                },
                Err(e) => {
                    &&& sys@.fs.contains_key(path@)
                    &&& e.action_tag@ == "create_or_merge_nix_config"@
                    &&& (!(sys@.fs[path@] is File) ==> (e.kind matches ActionErrorKind::Read(p)
                        && p@ == path@))
                    &&& (sys@.fs[path@] is File ==> e.kind is Custom)
                },
            },
    {
        match sys.fs_file_content(&path) {
            Some(content) => {
                match parse_nix_conf_text(&content) {
                    Ok(pairs) => {
                        let base = from_pairs(pairs);
                        let merged = merge(base, &pending_nix_config);
                        let rendered = render(&merged);
                        let this = CreateOrMergeNixConfig { path, pending_nix_config: merged };
                        if rendered == content {
                            Ok(StatefulAction::completed(this))
                        } else {
                            Ok(StatefulAction::uncompleted(this))
                        }
                    },
                    Err(msg) => Err(ActionError::new(
                        ActionTag("create_or_merge_nix_config"),
                        ActionErrorKind::Custom(msg),
                    )),
                }
            },
            None => {
                if sys.fs_contains(&path) {
                    Err(ActionError::new(
                        ActionTag("create_or_merge_nix_config"),
                        ActionErrorKind::Read(path),
                    ))
                } else {
                    Ok(StatefulAction::uncompleted(CreateOrMergeNixConfig {
                        path,
                        pending_nix_config,
                    }))
                }
            },
        }
    }
}

impl Action for CreateOrMergeNixConfig {
    open spec fn inv(&self) -> bool {
        self.pending_nix_config.inv()
    }

    open spec fn execute_ok(pre: Self, s0: SystemView, post: Self, s1: SystemView) -> bool {
        &&& post == pre
        &&& (s0.fs.contains_key(pre.path@) ==> s0.fs[pre.path@] is File)
        &&& s1 == with_fs(
            s0,
            s0.fs.insert(
                pre.path@,
                FsNodeV::File { content: render_spec(pre.pending_nix_config.settings.rows@) },
            ),
        )
    }

    open spec fn execute_err(
        pre: Self,
        s0: SystemView,
        post: Self,
        s1: SystemView,
        e: ActionError,
    ) -> bool {
        &&& post == pre
        &&& s1 == s0
        &&& s0.fs.contains_key(pre.path@)
        &&& !(s0.fs[pre.path@] is File)
        &&& e.action_tag@ == "create_or_merge_nix_config"@
        &&& (e.kind matches ActionErrorKind::Open(p) && p@ == pre.path@)
    }

    open spec fn revert_ok(pre: Self, s0: SystemView, post: Self, s1: SystemView) -> bool {
        &&& post == pre
        &&& (s0.fs.contains_key(pre.path@) ==> s0.fs[pre.path@] is File)
        &&& s1 == with_fs(s0, s0.fs.remove(pre.path@))
    }

    open spec fn revert_err(
        pre: Self,
        s0: SystemView,
        post: Self,
        s1: SystemView,
        e: ActionError,
    ) -> bool {
        &&& post == pre
        &&& s1 == s0
        &&& s0.fs.contains_key(pre.path@)
        &&& !(s0.fs[pre.path@] is File)
        &&& e.action_tag@ == "create_or_merge_nix_config"@
        &&& (e.kind matches ActionErrorKind::Remove(p) && p@ == pre.path@)
    }

    fn action_tag(&self) -> (t: ActionTag)
        ensures
            t@ == "create_or_merge_nix_config"@,
    {
        ActionTag("create_or_merge_nix_config")
    }

    fn tracing_synopsis(&self) -> String {
        concat3("Merge or create nix configuration file `", self.path.as_str(), "`")
    }

    fn execute_description(&self) -> (r: Vec<ActionDescription>)
        ensures
            r@.len() == 1,
    {
        vec![ActionDescription::new(self.tracing_synopsis(), Vec::new())]
    }

    fn revert_description(&self) -> (r: Vec<ActionDescription>)
        ensures
            r@.len() == 1,
    {
        vec![ActionDescription::new(
            concat3("Remove file `", self.path.as_str(), "`"),
            Vec::new(),
        )]
    }

    fn execute(&mut self, sys: &mut System) -> (r: Result<(), ActionError>) {
        match sys.fs_node_kind(&self.path) {
            NodeKind::IsDir | NodeKind::IsSymlink => Err(ActionError::new(
                ActionTag("create_or_merge_nix_config"),
                ActionErrorKind::Open(copy_string(&self.path)),
            )),
            _ => {
                let rendered = render(&self.pending_nix_config);
                sys.fs_set(copy_string(&self.path), FsNode::File { content: rendered });
                Ok(())
            },
        }
    }

    fn revert(&mut self, sys: &mut System) -> (r: Result<(), ActionError>) {
        match sys.fs_node_kind(&self.path) {
            NodeKind::IsDir | NodeKind::IsSymlink => Err(ActionError::new(
                ActionTag("create_or_merge_nix_config"),
                ActionErrorKind::Remove(copy_string(&self.path)),
            )),
            NodeKind::IsFile => {
                sys.fs_remove(&self.path);
                Ok(())
            },
            NodeKind::Missing => {
                proof {
                    assert(sys@.fs =~= sys@.fs.remove(self.path@));
                    assert(sys@ =~= with_fs(sys@, sys@.fs.remove(self.path@)));
                }
                Ok(())
            },
        }
    }
}

} // verus!

