//! Place the `/etc/nix/nix.conf` file: a composite owning a directory
//! child and a merge-the-configuration child, run in that order and
//! reverted in reverse.

use vstd::prelude::*;
use crate::action::{Action, ActionDescription, ActionState, StatefulAction, out_to_result, opt_err};
use crate::base::CreateDirectory;
use crate::conf::{CreateOrMergeNixConfig, NixConfig, from_pairs, parse_nix_conf_text, pairs_map};
use crate::errors::{ActionError, ActionErrorKind, ActionTag, fold_errors, folds_to};
use crate::settings::{CommonSettings, HostContext};
use crate::strutil::{contains_seq, contains_str, copy_string};
use crate::system::{System, SystemView};

verus! {

pub open spec fn nix_conf_folder() -> Seq<char> {
    "/etc/nix"@
}

pub open spec fn nix_conf_path() -> Seq<char> {
    "/etc/nix/nix.conf"@
}

/// `cur` with `feat` appended after a space, unless already present.
pub open spec fn spec_add_feature(cur: Seq<char>, feat: Seq<char>) -> Seq<char> {
    if contains_seq(cur, feat) {
        cur
    } else {
        cur + " "@ + feat
    }
}

/// `cur` with `feat` appended after a space, unless already present.
pub fn add_feature(cur: String, feat: &str) -> (r: String)
    ensures
        r@ == spec_add_feature(cur@, feat@),
{
    if contains_str(cur.as_str(), feat) {
        cur
    } else {
        let mut s = cur;
        s.append(" ");
        s.append(feat);
        s
    }
}

/// The settings the engine lays over whatever extra configuration the
/// host supplied: the experimental features are merged into any value the
/// extra configuration already carries; everything else is overridden.
pub open spec fn with_default_settings(
    base: Map<Seq<char>, Seq<char>>,
    group: Seq<char>,
    ssl: Option<Seq<char>>,
) -> Map<Seq<char>, Seq<char>> {
    let feats = if base.contains_key("experimental-features"@) {
        spec_add_feature(
            spec_add_feature(
                spec_add_feature(base["experimental-features"@], "nix-command"@),
                "flakes"@,
            ),
            "repl-flake"@,
        )
    } else {
        "nix-command flakes repl-flake"@
    };
    let m = base.insert("build-users-group"@, group).insert(
        "experimental-features"@,
        feats,
    ).insert("auto-optimise-store"@, "true"@).insert(
        "bash-prompt-prefix"@,
        "(nix:$name)\\040"@,
    ).insert("max-jobs"@, "auto"@);
    let m2 = match ssl {
        Some(p) => m.insert("ssl-cert-file"@, p),
        None => m,
    };
    m2.insert("extra-nix-path"@, "nixpkgs=flake:nixpkgs"@).insert(
        "upgrade-nix-store-path-url"@,
        "https://install.determinate.systems/nix-upgrade/stable/universal"@,
    ).insert("keep-derivations"@, "false"@).insert("keep-outputs"@, "false"@)
}

/// The certificate path a host handed over, as text.
pub open spec fn ssl_view(o: Option<String>) -> Option<Seq<char>> {
    match o {
        Some(p) => Some(p@),
        None => None,
    }
}

/// Build the settings map to place, over the parsed extra configuration.
pub fn build_nix_config(extra_pairs: Vec<(String, String)>, settings: &CommonSettings) -> (r:
    NixConfig)
    ensures
        r.inv(),
        r@ == with_default_settings(
            pairs_map(extra_pairs@),
            settings.nix_build_group_name@,
            ssl_view(settings.ssl_cert_file),
        ),
{
    let mut nc = from_pairs(extra_pairs);
    let feats = match nc.get(&String::from_str("experimental-features")) {
        Some(cur) => {
            let f1 = add_feature(copy_string(cur), "nix-command");
            let f2 = add_feature(f1, "flakes");
            add_feature(f2, "repl-flake")
        },
        None => String::from_str("nix-command flakes repl-flake"),
    };
    nc.set(String::from_str("build-users-group"), copy_string(&settings.nix_build_group_name));
    nc.set(String::from_str("experimental-features"), feats);
    nc.set(String::from_str("auto-optimise-store"), String::from_str("true"));
    nc.set(String::from_str("bash-prompt-prefix"), String::from_str("(nix:$name)\\040"));
    nc.set(String::from_str("max-jobs"), String::from_str("auto"));
    match &settings.ssl_cert_file {
        Some(p) => {
            nc.set(String::from_str("ssl-cert-file"), copy_string(p));
        },
        None => {},
    }
    nc.set(String::from_str("extra-nix-path"), String::from_str("nixpkgs=flake:nixpkgs"));
    nc.set(
        String::from_str("upgrade-nix-store-path-url"),
        String::from_str("https://install.determinate.systems/nix-upgrade/stable/universal"),
    );
    nc.set(String::from_str("keep-derivations"), String::from_str("false"));
    nc.set(String::from_str("keep-outputs"), String::from_str("false"));
    nc
}

/// Place the `/etc/nix/nix.conf` file.
#[derive(Debug)]
pub struct PlaceNixConfiguration {
    pub create_directory: StatefulAction<CreateDirectory>,
    pub create_or_merge_nix_config: StatefulAction<CreateOrMergeNixConfig>,
}

impl PlaceNixConfiguration {
    /// Build the settings to place from the host's resolved extra
    /// configuration, and plan the directory and merge children.
    pub fn plan(settings: &CommonSettings, ctx: &HostContext, sys: &System) -> (r: Result<
        StatefulAction<PlaceNixConfiguration>,
        ActionError,
    >)
        requires
            sys.inv(),
        ensures
            match r {
                Ok(w) => {
                    &&& w.inv()
                    &&& w.action.create_directory.action.path@ == nix_conf_folder()
                    &&& (sys@.fs.contains_key(nix_conf_folder()) ==> sys@.fs[nix_conf_folder()]
                        is Dir)
                    &&& (w.action.create_directory.state == ActionState::Completed
                        <==> sys@.fs.contains_key(nix_conf_folder()))
                    &&& w.action.create_or_merge_nix_config.action.path@ == nix_conf_path()
                    &&& (sys@.fs.contains_key(nix_conf_path()) ==> sys@.fs[nix_conf_path()]
                        is File)
                    &&& (!sys@.fs.contains_key(nix_conf_path()) ==> exists|
                        extra: Map<Seq<char>, Seq<char>>,
                    |
                        w.action.create_or_merge_nix_config.action.pending_nix_config@
                            == #[trigger] with_default_settings(
                            extra,
                            settings.nix_build_group_name@,
                            ssl_view(settings.ssl_cert_file),
                        ))
                    &&& (w.state == ActionState::Completed <==> (w.action.create_directory.state
                        == ActionState::Completed && w.action.create_or_merge_nix_config.state
                        == ActionState::Completed))
                },
                Err(e) => {
                    ||| (e.action_tag@ == "place_nix_configuration"@ && e.kind is Custom)
                    ||| (e.action_tag@ == "create_directory"@ && sys@.fs.contains_key(
                        nix_conf_folder(),
                    ) && !(sys@.fs[nix_conf_folder()] is Dir))
                    ||| (e.action_tag@ == "create_or_merge_nix_config"@ && sys@.fs.contains_key(
                        nix_conf_path(),
                    ))
                },
            },
    {
        let joined = join_newline(&settings.extra_conf);
        let pairs = match parse_nix_conf_text(&joined) {
            Ok(pairs) => pairs,
            Err(msg) => {
                return Err(ActionError::new(
                    ActionTag("place_nix_configuration"),
                    ActionErrorKind::Custom(msg),
                ));
            },
        };
        let nix_config = build_nix_config(pairs, settings);
        let create_directory = CreateDirectory::plan(
            String::from_str("/etc/nix"),
            Some(copy_string(&ctx.username)),
            Some(copy_string(&settings.nix_build_group_name)),
            0o755,
            settings.force,
            sys,
        )?;
        let create_or_merge_nix_config = CreateOrMergeNixConfig::plan(
            String::from_str("/etc/nix/nix.conf"),
            nix_config,
            sys,
        )?;
        let both_done = match (create_directory.state, create_or_merge_nix_config.state) {
            (ActionState::Completed, ActionState::Completed) => true,
            _ => false,
        };
        let this = PlaceNixConfiguration { create_directory, create_or_merge_nix_config };
        if both_done {
            Ok(StatefulAction::completed(this))
        } else {
            Ok(StatefulAction::uncompleted(this))
        }
    }
}

/// The extra configuration stanzas joined by newlines.
pub open spec fn join_nl(v: Seq<String>) -> Seq<char>
    decreases v.len(),
{
    if v.len() == 0 {
        Seq::empty()
    } else if v.len() == 1 {
        v[0]@
    } else {
        join_nl(v.drop_last()) + "\n"@ + v.last()@
    }
}

/// Join text stanzas with newlines.
pub fn join_newline(v: &Vec<String>) -> (r: String)
    ensures
        r@ == join_nl(v@),
{
    let mut out = String::new();
    let n = v.len();
    let mut i: usize = 0;
    while i < n
        invariant
            n == v@.len(),
            0 <= i <= n,
            out@ == join_nl(v@.take(i as int)),
        decreases n - i,
    {
        if i > 0 {
            out.append("\n");
        }
        out.append(v[i].as_str());
        proof {
            assert(v@.take(i + 1).drop_last() =~= v@.take(i as int));
            assert(v@.take(i + 1).last() == v@[i as int]);
            if i == 0 {
                assert(out@ == join_nl(v@.take(1)));
            }
        }
        i += 1;
    }
    proof {
        assert(v@.take(n as int) =~= v@);
    }
    out
}

proof fn execute_ok_intro(
    pre: PlaceNixConfiguration,
    s0: SystemView,
    post: PlaceNixConfiguration,
    s1: SystemView,
    mid: SystemView,
)
    requires
        StatefulAction::try_execute_rel(
            pre.create_directory,
            s0,
            post.create_directory,
            mid,
            Ok(()),
        ),
        StatefulAction::try_execute_rel(
            pre.create_or_merge_nix_config,
            mid,
            post.create_or_merge_nix_config,
            s1,
            Ok(()),
        ),
    ensures
        PlaceNixConfiguration::execute_ok(pre, s0, post, s1),
{
}

proof fn execute_err_cfg_intro(
    pre: PlaceNixConfiguration,
    s0: SystemView,
    post: PlaceNixConfiguration,
    s1: SystemView,
    e: ActionError,
    mid: SystemView,
)
    requires
        StatefulAction::try_execute_rel(
            pre.create_directory,
            s0,
            post.create_directory,
            mid,
            Ok(()),
        ),
        StatefulAction::try_execute_rel(
            pre.create_or_merge_nix_config,
            mid,
            post.create_or_merge_nix_config,
            s1,
            Err(e),
        ),
    ensures
        PlaceNixConfiguration::execute_err(pre, s0, post, s1, e),
{
}

proof fn revert_done_intro(
    pre: PlaceNixConfiguration,
    s0: SystemView,
    post: PlaceNixConfiguration,
    s1: SystemView,
    mid: SystemView,
    oc: Option<ActionError>,
    od: Option<ActionError>,
    r: Result<(), ActionError>,
)
    requires
        StatefulAction::try_revert_rel(
            pre.create_or_merge_nix_config,
            s0,
            post.create_or_merge_nix_config,
            mid,
            out_to_result(oc),
        ),
        StatefulAction::try_revert_rel(
            pre.create_directory,
            mid,
            post.create_directory,
            s1,
            out_to_result(od),
        ),
        folds_to(opt_err(oc) + opt_err(od), ActionTag("place_nix_configuration"), r),
    ensures
        (match r {
            Ok(()) => PlaceNixConfiguration::revert_ok(pre, s0, post, s1),
            Err(e) => PlaceNixConfiguration::revert_err(pre, s0, post, s1, e),
        }),
{
    match r {
        Ok(()) => {
            assert(opt_err(oc).len() + opt_err(od).len() == 0);
            assert(oc is None && od is None);
        },
        Err(e) => {
        },
    }
}

impl Action for PlaceNixConfiguration {
    open spec fn inv(&self) -> bool {
        self.create_or_merge_nix_config.inv()
    }

    open spec fn execute_ok(pre: Self, s0: SystemView, post: Self, s1: SystemView) -> bool {
        exists|mid: SystemView|
            #[trigger] StatefulAction::try_execute_rel(
                pre.create_directory,
                s0,
                post.create_directory,
                mid,
                Ok(()),
            ) && StatefulAction::try_execute_rel(
                pre.create_or_merge_nix_config,
                mid,
                post.create_or_merge_nix_config,
                s1,
                Ok(()),
            )
    }

    open spec fn execute_err(
        pre: Self,
        s0: SystemView,
        post: Self,
        s1: SystemView,
        e: ActionError,
    ) -> bool {
        ||| (StatefulAction::try_execute_rel(
            pre.create_directory,
            s0,
            post.create_directory,
            s1,
            Err(e),
        ) && post.create_or_merge_nix_config == pre.create_or_merge_nix_config)
        ||| (exists|mid: SystemView|
            #[trigger] StatefulAction::try_execute_rel(
                pre.create_directory,
                s0,
                post.create_directory,
                mid,
                Ok(()),
            ) && StatefulAction::try_execute_rel(
                pre.create_or_merge_nix_config,
                mid,
                post.create_or_merge_nix_config,
                s1,
                Err(e),
            ))
    }

    open spec fn revert_ok(pre: Self, s0: SystemView, post: Self, s1: SystemView) -> bool {
        exists|mid: SystemView|
            #[trigger] StatefulAction::try_revert_rel(
                pre.create_or_merge_nix_config,
                s0,
                post.create_or_merge_nix_config,
                mid,
                Ok(()),
            ) && StatefulAction::try_revert_rel(
                pre.create_directory,
                mid,
                post.create_directory,
                s1,
                Ok(()),
            )
    }

    open spec fn revert_err(
        pre: Self,
        s0: SystemView,
        post: Self,
        s1: SystemView,
        e: ActionError,
    ) -> bool {
        exists|mid: SystemView, oc: Option<ActionError>, od: Option<ActionError>|
            #[trigger] StatefulAction::try_revert_rel(
                pre.create_or_merge_nix_config,
                s0,
                post.create_or_merge_nix_config,
                mid,
                out_to_result(oc),
            ) && #[trigger] StatefulAction::try_revert_rel(
                pre.create_directory,
                mid,
                post.create_directory,
                s1,
                out_to_result(od),
            ) && opt_err(oc).len() + opt_err(od).len() >= 1 && folds_to(
                opt_err(oc) + opt_err(od),
                ActionTag("place_nix_configuration"),
                Err(e),
            )
    }

    fn action_tag(&self) -> (t: ActionTag)
        ensures
            t@ == "place_nix_configuration"@,
    {
        ActionTag("place_nix_configuration")
    }

    fn tracing_synopsis(&self) -> String {
        String::from_str("Place the Nix configuration in `/etc/nix/nix.conf`")
    }

    fn execute_description(&self) -> (r: Vec<ActionDescription>)
        ensures
            r@.len() == 1,
    {
        let mut explanation: Vec<String> = Vec::new();
        explanation.push(
            String::from_str(
                "This file is read by the Nix daemon to set its configuration options at runtime.",
            ),
        );
        let dir_desc = self.create_directory.describe_execute();
        if dir_desc.len() > 0 {
            explanation.push(copy_string(&dir_desc[0].description));
        }
        let cfg_desc = self.create_or_merge_nix_config.describe_execute();
        let mut i: usize = 0;
        let n = cfg_desc.len();
        while i < n
            invariant
                n == cfg_desc@.len(),
                0 <= i <= n,
            decreases n - i,
        {
            explanation.push(copy_string(&cfg_desc[i].description));
            i += 1;
        }
        vec![ActionDescription::new(self.tracing_synopsis(), explanation)]
    }

    fn revert_description(&self) -> (r: Vec<ActionDescription>)
        ensures
            r@.len() == 1,
    {
        vec![ActionDescription::new(
            String::from_str("Remove the Nix configuration in `/etc/nix/nix.conf`"),
            vec![
                String::from_str(
                    "This file is read by the Nix daemon to set its configuration options at runtime.",
                ),
            ],
        )]
    }

    fn execute(&mut self, sys: &mut System) -> (r: Result<(), ActionError>) {
        let ghost this0 = *self;
        let ghost s0 = sys@;
        match self.create_directory.try_execute(sys) {
            Ok(()) => {},
            Err(e) => {
                return Err(e);
            },
        }
        let ghost mid = sys@;
        match self.create_or_merge_nix_config.try_execute(sys) {
            Ok(()) => {
                proof {
                    execute_ok_intro(this0, s0, *self, sys@, mid);
                }
                Ok(())
            },
            Err(e) => {
                proof {
                    execute_err_cfg_intro(this0, s0, *self, sys@, e, mid);
                }
                Err(e)
            },
        }
    }

    fn revert(&mut self, sys: &mut System) -> (r: Result<(), ActionError>) {
        let ghost this0 = *self;
        let ghost s0 = sys@;
        let mut errs: Vec<ActionError> = Vec::new();
        let ghost mut oc: Option<ActionError> = None;
        match self.create_or_merge_nix_config.try_revert(sys) {
            Ok(()) => {},
            Err(e) => {
                proof {
                    oc = Some(e);
                }
                errs.push(e);
            },
        }
        let ghost mid = sys@;
        let ghost mut od: Option<ActionError> = None;
        match self.create_directory.try_revert(sys) {
            Ok(()) => {},
            Err(e) => {
                proof {
                    od = Some(e);
                }
                errs.push(e);
            },
        }
        proof {
            assert(errs@ =~= opt_err(oc) + opt_err(od));
        }
        let res = fold_errors(ActionTag("place_nix_configuration"), errs);
        proof {
            revert_done_intro(this0, s0, *self, sys@, mid, oc, od, res);
        }
        res
    }
}

} // verus!
