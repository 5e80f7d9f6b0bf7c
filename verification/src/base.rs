//! Base operations on single filesystem nodes: creating a directory, and
//! creating a file or inserting a block of text into it.  These are the
//! children that the composite operations own.

use vstd::prelude::*;
use crate::action::{Action, ActionDescription, ActionState, StatefulAction};
use crate::errors::{ActionError, ActionErrorKind, ActionTag};
use crate::strutil::{
    contains_seq, contains_str, copy_string, concat3, find_first, find_last, is_first_match,
    is_last_match, match_at, remove_span, str_len, without_span,
};
use crate::system::{FsNode, FsNodeV, NodeKind, System, SystemView, with_fs};

verus! {

/// Create a directory at a path.
#[derive(Debug)]
pub struct CreateDirectory {
    pub path: String,
    pub user: Option<String>,
    pub group: Option<String>,
    pub mode: u32,
}

impl CreateDirectory {
    /// Decide whether the directory still has to be created: an existing
    /// directory satisfies the goal; an existing file or symlink is a
    /// conflict that needs operator intervention.
    pub fn plan(
        path: String,
        user: Option<String>,
        group: Option<String>,
        mode: u32,
        force: bool,
        sys: &System,
    ) -> (r: Result<StatefulAction<CreateDirectory>, ActionError>)
        requires
            sys.inv(),
        ensures
            match r {
                Ok(w) => {
                    &&& w.action.path == path
                    &&& w.action.user == user
                    &&& w.action.group == group
                    &&& w.action.mode == mode
                    &&& (w.state == ActionState::Completed <==> sys@.fs.contains_key(path@))
                    &&& (sys@.fs.contains_key(path@) ==> sys@.fs[path@] is Dir)
                },
                Err(e) => {
                    &&& sys@.fs.contains_key(path@)
                    &&& !(sys@.fs[path@] is Dir)
                    &&& e.action_tag@ == "create_directory"@
                    &&& (sys@.fs[path@] is File ==> (e.kind matches ActionErrorKind::FileExists(p)
                        && p@ == path@))
                    &&& (sys@.fs[path@] is Symlink ==> (e.kind
                        matches ActionErrorKind::SymlinkExists(p) && p@ == path@))
                },
            },
    {
        match sys.fs_node_kind(&path) {
            NodeKind::Missing => Ok(StatefulAction::uncompleted(CreateDirectory {
                path,
                user,
                group,
                mode,
            })),
            NodeKind::IsDir => Ok(StatefulAction::completed(CreateDirectory {
                path,
                user,
                group,
                mode,
            })),
            NodeKind::IsFile => Err(ActionError::new(
                ActionTag("create_directory"),
                ActionErrorKind::FileExists(path),
            )),
            NodeKind::IsSymlink => Err(ActionError::new(
                ActionTag("create_directory"),
                ActionErrorKind::SymlinkExists(path),
            )),
        }
    }
}

impl Action for CreateDirectory {
    open spec fn inv(&self) -> bool {
        true
    }

    open spec fn execute_ok(pre: Self, s0: SystemView, post: Self, s1: SystemView) -> bool {
        &&& post == pre
        &&& {
            ||| (s0.fs.contains_key(pre.path@) && s0.fs[pre.path@] is Dir && s1 == s0)
            ||| (!s0.fs.contains_key(pre.path@) && s1 == with_fs(
                s0,
                s0.fs.insert(pre.path@, FsNodeV::Dir),
            ))
        }
    }

    open spec fn execute_err(
        pre: Self,
        s0: SystemView,
        post: Self,
        s1: SystemView,
        e: ActionError,
    ) -> bool {
        &&& post == pre
        &&& s1 == s0
        &&& s0.fs.contains_key(pre.path@)
        &&& !(s0.fs[pre.path@] is Dir)
        &&& e.action_tag@ == "create_directory"@
        &&& (e.kind matches ActionErrorKind::CreateDirectory(p) && p@ == pre.path@)
    }

    open spec fn revert_ok(pre: Self, s0: SystemView, post: Self, s1: SystemView) -> bool {
        &&& post == pre
        &&& {
            ||| (!s0.fs.contains_key(pre.path@) && s1 == s0)
            ||| (s0.fs.contains_key(pre.path@) && s0.fs[pre.path@] is Dir && s1 == with_fs(
                s0,
                s0.fs.remove(pre.path@),
            ))
        }
    }

    open spec fn revert_err(
        pre: Self,
        s0: SystemView,
        post: Self,
        s1: SystemView,
        e: ActionError,
    ) -> bool {
        &&& post == pre
        &&& s1 == s0
        &&& s0.fs.contains_key(pre.path@)
        &&& !(s0.fs[pre.path@] is Dir)
        &&& e.action_tag@ == "create_directory"@
        &&& (e.kind matches ActionErrorKind::Remove(p) && p@ == pre.path@)
    }

    fn action_tag(&self) -> (t: ActionTag)
        ensures
            t@ == "create_directory"@,
    {
        ActionTag("create_directory")
    }

    fn tracing_synopsis(&self) -> String {
        concat3("Create directory `", self.path.as_str(), "`")
    }

    fn execute_description(&self) -> (r: Vec<ActionDescription>)
        ensures
            r@.len() == 1,
    {
        vec![ActionDescription::new(self.tracing_synopsis(), Vec::new())]
    }

    fn revert_description(&self) -> (r: Vec<ActionDescription>)
        ensures
            r@.len() == 1,
    {
        vec![ActionDescription::new(
            concat3("Remove directory `", self.path.as_str(), "`"),
            Vec::new(),
        )]
    }

    fn execute(&mut self, sys: &mut System) -> (r: Result<(), ActionError>) {
        match sys.fs_node_kind(&self.path) {
            NodeKind::IsDir => Ok(()),
            NodeKind::Missing => {
                sys.fs_set(copy_string(&self.path), FsNode::Dir);
                Ok(())
            },
            _ => Err(ActionError::new(
                ActionTag("create_directory"),
                ActionErrorKind::CreateDirectory(copy_string(&self.path)),
            )),
        }
    }

    fn revert(&mut self, sys: &mut System) -> (r: Result<(), ActionError>) {
        match sys.fs_node_kind(&self.path) {
            NodeKind::Missing => Ok(()),
            NodeKind::IsDir => {
                sys.fs_remove(&self.path);
                Ok(())
            },
            _ => Err(ActionError::new(
                ActionTag("create_directory"),
                ActionErrorKind::Remove(copy_string(&self.path)),
            )),
        }
    }
}

/// Where an inserted block of text goes inside an existing file.
#[derive(Clone, Copy, Debug, PartialEq, Eq, Structural)]
pub enum Position {
    Beginning,
    End,
}

/// The file content after inserting `buf` at `position`.
pub open spec fn inserted(content: Seq<char>, buf: Seq<char>, position: Position) -> Seq<char> {
    match position {
        Position::Beginning => buf + content,
        Position::End => content + buf,
    }
}

/// `result` is `content` with the occurrence of `buf` nearest the given
/// end removed: the first occurrence when the block was inserted at the
/// beginning, the last when it was inserted at the end.
pub open spec fn strip_rel(
    content: Seq<char>,
    buf: Seq<char>,
    position: Position,
    result: Seq<char>,
) -> bool {
    exists|i: int|
        #[trigger] match_at(content, buf, i) && (match position {
            Position::Beginning => is_first_match(content, buf, i),
            Position::End => is_last_match(content, buf, i),
        }) && result == without_span(content, i, buf.len() as int)
}

/// Create a file holding a block of text, or insert the block into an
/// existing file.
#[derive(Debug)]
pub struct CreateOrInsertIntoFile {
    pub path: String,
    pub user: Option<String>,
    pub group: Option<String>,
    pub mode: u32,
    pub buf: String,
    pub position: Position,
}

impl CreateOrInsertIntoFile {
    /// Decide whether the block still has to be written: a file already
    /// holding the block satisfies the goal; a directory or symlink at
    /// the path cannot be edited.
    pub fn plan(
        path: String,
        user: Option<String>,
        group: Option<String>,
        mode: u32,
        buf: String,
        position: Position,
        sys: &System,
    ) -> (r: Result<StatefulAction<CreateOrInsertIntoFile>, ActionError>)
        requires
            sys.inv(),
        ensures
            match r {
                Ok(w) => {
                    &&& w.action.path == path
                    &&& w.action.buf == buf
                    &&& w.action.position == position
                    &&& w.action.user == user
                    &&& w.action.group == group
                    &&& w.action.mode == mode
                    &&& (sys@.fs.contains_key(path@) ==> sys@.fs[path@] is File)
                    &&& (w.state == ActionState::Completed <==> (sys@.fs.contains_key(path@)
                        && (sys@.fs[path@] matches FsNodeV::File { content } && contains_seq(
                        content,
                        buf@,
                    ))))
                },
                Err(e) => {
                    &&& sys@.fs.contains_key(path@)
                    &&& !(sys@.fs[path@] is File)
                    &&& e.action_tag@ == "create_or_insert_into_file"@
                    &&& (e.kind matches ActionErrorKind::Read(p) && p@ == path@)
                },
            },
    {
        match sys.fs_file_content(&path) {
            Some(content) => {
                if contains_str(content.as_str(), buf.as_str()) {
                    Ok(StatefulAction::completed(CreateOrInsertIntoFile {
                        path,
                        user,
                        group,
                        mode,
                        buf,
                        position,
                    }))
                } else {
                    Ok(StatefulAction::uncompleted(CreateOrInsertIntoFile {
                        path,
                        user,
                        group,
                        mode,
                        buf,
                        position,
                    }))
                }
            },
            None => {
                if sys.fs_contains(&path) {
                    Err(ActionError::new(
                        ActionTag("create_or_insert_into_file"),
                        ActionErrorKind::Read(path),
                    ))
                } else {
                    Ok(StatefulAction::uncompleted(CreateOrInsertIntoFile {
                        path,
                        user,
                        group,
                        mode,
                        buf,
                        position,
                    }))
                }
            },
        }
    }
}

impl Action for CreateOrInsertIntoFile {
    open spec fn inv(&self) -> bool {
        true
    }

    open spec fn execute_ok(pre: Self, s0: SystemView, post: Self, s1: SystemView) -> bool {
        &&& post == pre
        &&& {
            ||| (!s0.fs.contains_key(pre.path@) && s1 == with_fs(
                s0,
                s0.fs.insert(pre.path@, FsNodeV::File { content: pre.buf@ }),
            ))
            ||| (s0.fs.contains_key(pre.path@) && (s0.fs[pre.path@] matches FsNodeV::File {
                content,
            } && {
                if contains_seq(content, pre.buf@) {
                    s1 == s0
                } else {
                    s1 == with_fs(
                        s0,
                        s0.fs.insert(
                            pre.path@,
                            FsNodeV::File { content: inserted(content, pre.buf@, pre.position) },
                        ),
                    )
                }
            }))
        }
    }

    open spec fn execute_err(
        pre: Self,
        s0: SystemView,
        post: Self,
        s1: SystemView,
        e: ActionError,
    ) -> bool {
        &&& post == pre
        &&& s1 == s0
        &&& s0.fs.contains_key(pre.path@)
        &&& !(s0.fs[pre.path@] is File)
        &&& e.action_tag@ == "create_or_insert_into_file"@
        &&& (e.kind matches ActionErrorKind::Open(p) && p@ == pre.path@)
    }

    open spec fn revert_ok(pre: Self, s0: SystemView, post: Self, s1: SystemView) -> bool {
        &&& post == pre
        &&& {
            ||| (!s0.fs.contains_key(pre.path@) && s1 == s0)
            ||| (s0.fs.contains_key(pre.path@) && (s0.fs[pre.path@] matches FsNodeV::File {
                content,
            } && {
                if content == pre.buf@ {
                    s1 == with_fs(s0, s0.fs.remove(pre.path@))
                } else if contains_seq(content, pre.buf@) {
                    exists|c2: Seq<char>|
                        #[trigger] strip_rel(content, pre.buf@, pre.position, c2) && s1 == with_fs(
                            s0,
                            s0.fs.insert(pre.path@, FsNodeV::File { content: c2 }),
                        )
                } else {
                    s1 == s0
                }
            }))
        }
    }

    open spec fn revert_err(
        pre: Self,
        s0: SystemView,
        post: Self,
        s1: SystemView,
        e: ActionError,
    ) -> bool {
        &&& post == pre
        &&& s1 == s0
        &&& s0.fs.contains_key(pre.path@)
        &&& !(s0.fs[pre.path@] is File)
        &&& e.action_tag@ == "create_or_insert_into_file"@
        &&& (e.kind matches ActionErrorKind::Remove(p) && p@ == pre.path@)
    }

    fn action_tag(&self) -> (t: ActionTag)
        ensures
            t@ == "create_or_insert_into_file"@,
    {
        ActionTag("create_or_insert_into_file")
    }

    fn tracing_synopsis(&self) -> String {
        concat3("Create or insert into file `", self.path.as_str(), "`")
    }

    fn execute_description(&self) -> (r: Vec<ActionDescription>)
        ensures
            r@.len() == 1,
    {
        vec![ActionDescription::new(self.tracing_synopsis(), Vec::new())]
    }

    fn revert_description(&self) -> (r: Vec<ActionDescription>)
        ensures
            r@.len() == 1,
    {
        vec![ActionDescription::new(
            concat3("Remove the block from file `", self.path.as_str(), "`"),
            Vec::new(),
        )]
    }

    fn execute(&mut self, sys: &mut System) -> (r: Result<(), ActionError>) {
        match sys.fs_file_content(&self.path) {
            Some(content) => {
                if contains_str(content.as_str(), self.buf.as_str()) {
                    Ok(())
                } else {
                    let new_content = match self.position {
                        Position::Beginning => crate::strutil::concat_str(
                            self.buf.as_str(),
                            content.as_str(),
                        ),
                        Position::End => crate::strutil::concat_str(
                            content.as_str(),
                            self.buf.as_str(),
                        ),
                    };
                    sys.fs_set(copy_string(&self.path), FsNode::File { content: new_content });
                    Ok(())
                }
            },
            None => {
                if sys.fs_contains(&self.path) {
                    Err(ActionError::new(
                        ActionTag("create_or_insert_into_file"),
                        ActionErrorKind::Open(copy_string(&self.path)),
                    ))
                } else {
                    sys.fs_set(
                        copy_string(&self.path),
                        FsNode::File { content: copy_string(&self.buf) },
                    );
                    Ok(())
                }
            },
        }
    }

    fn revert(&mut self, sys: &mut System) -> (r: Result<(), ActionError>) {
        match sys.fs_file_content(&self.path) {
            Some(content) => {
                if content == self.buf {
                    sys.fs_remove(&self.path);
                    Ok(())
                } else {
                    let found = match self.position {
                        Position::Beginning => find_first(content.as_str(), self.buf.as_str()),
                        Position::End => find_last(content.as_str(), self.buf.as_str()),
                    };
                    match found {
                        Some(i) => {
                            let blen = str_len(self.buf.as_str());
                            let stripped = remove_span(content.as_str(), i, blen);
                            proof {
                                assert(strip_rel(
                                    content@,
                                    self.buf@,
                                    self.position,
                                    stripped@,
                                ));
                            }
                            sys.fs_set(
                                copy_string(&self.path),
                                FsNode::File { content: stripped },
                            );
                            Ok(())
                        },
                        None => Ok(()),
                    }
                }
            },
            None => {
                if sys.fs_contains(&self.path) {
                    Err(ActionError::new(
                        ActionTag("create_or_insert_into_file"),
                        ActionErrorKind::Remove(copy_string(&self.path)),
                    ))
                } else {
                    Ok(())
                }
            },
        }
    }
}

/// Execute/revert inverse for the directory operation: where planning
/// found no node at the path, a successful execute followed by a
/// successful revert returns the host to its pre-execute state.
pub proof fn lemma_create_directory_roundtrip(
    op0: CreateDirectory,
    s0: SystemView,
    op1: CreateDirectory,
    s1: SystemView,
    op2: CreateDirectory,
    s2: SystemView,
)
    requires
        !s0.fs.contains_key(op0.path@),
        CreateDirectory::execute_ok(op0, s0, op1, s1),
        CreateDirectory::revert_ok(op1, s1, op2, s2),
    ensures
        s2 == s0,
        op2 == op0,
{
    assert(s1.fs == s0.fs.insert(op0.path@, FsNodeV::Dir));
    assert(s2.fs =~= s0.fs);
    assert(s2 =~= s0);
}

/// Execute/revert inverse for the file-edit operation: where planning
/// found work left to do (no node at the path, or a file with content
/// that does not hold the block), a successful execute followed by a
/// successful revert returns the host to its pre-execute state.
///
/// A pre-existing empty file is left out: executing turns it into a file
/// holding exactly the block, which revert cannot tell apart from a file
/// the execute created, so revert removes it.
pub proof fn lemma_create_or_insert_roundtrip(
    op0: CreateOrInsertIntoFile,
    s0: SystemView,
    op1: CreateOrInsertIntoFile,
    s1: SystemView,
    op2: CreateOrInsertIntoFile,
    s2: SystemView,
)
    requires
        op0.buf@.len() > 0,
        (!s0.fs.contains_key(op0.path@)) || (s0.fs[op0.path@] matches FsNodeV::File { content }
            && !contains_seq(content, op0.buf@) && content.len() > 0),
        CreateOrInsertIntoFile::execute_ok(op0, s0, op1, s1),
        CreateOrInsertIntoFile::revert_ok(op1, s1, op2, s2),
    ensures
        s2 == s0,
        op2 == op0,
{
    let p = op0.path@;
    let b = op0.buf@;
    if !s0.fs.contains_key(p) {
        assert(s1.fs == s0.fs.insert(p, FsNodeV::File { content: b }));
        assert(s1.fs[p] == FsNodeV::File { content: b });
        assert(s2.fs =~= s0.fs);
        assert(s2 =~= s0);
    } else {
        let c = s0.fs[p]->File_content;
        let ins = inserted(c, b, op0.position);
        assert(s1.fs == s0.fs.insert(p, FsNodeV::File { content: ins }));
        assert(s1.fs[p] == FsNodeV::File { content: ins });
        assert(ins.len() == c.len() + b.len());
        assert(ins != b);
        match op0.position {
            Position::End => {
                assert(ins.subrange(c.len() as int, ins.len() as int) =~= b);
                assert(match_at(ins, b, c.len() as int));
            },
            Position::Beginning => {
                assert(ins.subrange(0, b.len() as int) =~= b);
                assert(match_at(ins, b, 0));
            },
        }
        assert(contains_seq(ins, b));
        let c2 = choose|c2: Seq<char>|
            #[trigger] strip_rel(ins, b, op0.position, c2) && s2 == with_fs(
                s1,
                s1.fs.insert(p, FsNodeV::File { content: c2 }),
            );
        let i = choose|i: int|
            #[trigger] match_at(ins, b, i) && (match op0.position {
                Position::Beginning => is_first_match(ins, b, i),
                Position::End => is_last_match(ins, b, i),
            }) && c2 == without_span(ins, i, b.len() as int);
        match op0.position {
            Position::End => {
                assert(i == c.len()) by {
                    if i < c.len() {
                        assert(match_at(ins, b, c.len() as int));
                    }
                }
                assert(ins.subrange(0, c.len() as int) =~= c);
                assert(ins.subrange(c.len() + b.len() as int, ins.len() as int) =~= Seq::<char>::empty());
                assert(c2 =~= c);
            },
            Position::Beginning => {
                assert(i == 0) by {
                    if i > 0 {
                        assert(match_at(ins, b, 0));
                    }
                }
                assert(ins.subrange(0, 0) =~= Seq::<char>::empty());
                assert(ins.subrange(b.len() as int, ins.len() as int) =~= c);
                assert(c2 =~= c);
            },
        }
        assert(s2.fs == s1.fs.insert(p, FsNodeV::File { content: c2 }));
        assert(s0.fs[p] == FsNodeV::File { content: c });
        assert(FsNodeV::File { content: c2 } =~= FsNodeV::File { content: c });
        assert(s2.fs =~= s0.fs);
        assert(s2 =~= s0);
    }
}

} // verus!

