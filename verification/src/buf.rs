use vstd::prelude::*;
use vstd::string::StringExecFns;

use crate::error::TonicBufBuildError;
use crate::join_path;
use crate::yaml::{lookup_string_list, string_list_field, FieldLookup, FieldLookupView};

verus! {

/// A module configuration: the ordered list of dependency references
/// declared under `deps`, or `None` where the field was absent.
#[derive(Debug)]
pub struct BufYaml {
    pub deps: Option<Vec<String>>,
}

/// A workspace configuration: the ordered list of member directories
/// declared under `directories`, or `None` where the field was absent.
#[derive(Debug)]
pub struct BufWorkYaml {
    pub directories: Option<Vec<String>>,
}

/// True when every element of the looked-up sequence was a string.
pub open spec fn all_strings(items: Seq<Option<Seq<char>>>) -> bool {
    forall|i: int| 0 <= i < items.len() ==> items[i] is Some
}

/// The texts of a looked-up sequence whose elements are all strings.
pub open spec fn string_values(items: Seq<Option<Seq<char>>>) -> Seq<Seq<char>> {
    items.map_values(|x: Option<Seq<char>>| x->Some_0)
}

/// The decoded outcome of an optional list-of-strings field: `Ok(None)`
/// where the field is absent or null, `Ok(Some(..))` where it is a sequence
/// of strings, and a parse failure on any other shape.
pub open spec fn spec_list_config(f: FieldLookupView) -> Result<Option<Seq<Seq<char>>>, ()> {
    match f {
        FieldLookupView::Missing => Ok(None),
        FieldLookupView::NullValue => Ok(None),
        FieldLookupView::Items(items) => if all_strings(items) {
            Ok(Some(string_values(items)))
        } else {
            Err(())
        },
        _ => Err(()),
    }
}

/// Reads the optional list-of-strings field `key` out of the YAML document
/// `text`; `path` names the file the text came from, for diagnostics.
fn load_string_list_config(text: &str, path: &str, key: &str) -> (r: Result<
    Option<Vec<String>>,
    TonicBufBuildError,
>)
    ensures
        match r {
            Ok(d) => spec_list_config(string_list_field(text@, key@)) == Ok::<_, ()>(
                d.deep_view(),
            ),
            Err(e) => ({
                let f = string_list_field(text@, key@);
                &&& spec_list_config(f) is Err
                &&& e matches TonicBufBuildError::ConfigParse { path: p, cause } && p@ == path@ && (
                f matches FieldLookupView::BadSyntax(c) ==> cause@ == c)
            }),
        },
{
    let looked = lookup_string_list(text, key);
    match &looked {
        FieldLookup::BadSyntax(c) => Err(
            TonicBufBuildError::ConfigParse { path: path.to_owned(), cause: c.clone() },
        ),
        FieldLookup::NotAMapping => Err(
            TonicBufBuildError::ConfigParse {
                path: path.to_owned(),
                cause: "expected a mapping at the top level".to_owned(),
            },
        ),
        FieldLookup::Missing => Ok(None),
        FieldLookup::NullValue => Ok(None),
        FieldLookup::WrongShape => Err(
            TonicBufBuildError::ConfigParse {
                path: path.to_owned(),
                cause: "expected a sequence of strings".to_owned(),
            },
        ),
        FieldLookup::Items(items) => {
            let mut out: Vec<String> = Vec::new();
            let mut i: usize = 0;
            while i < items.len()
                invariant
                    i <= items.len(),
                    out@.len() == i as int,
                    string_list_field(text@, key@) == FieldLookupView::Items(items.deep_view()),
                    forall|j: int| 0 <= j < i as int ==> items@[j] is Some,
                    forall|j: int| 0 <= j < i as int ==> out@[j]@ == items@[j]->Some_0@,
                decreases items.len() - i,
            {
                match &items[i] {
                    Some(s) => {
                        out.push(s.clone());
                    },
                    None => {
                        proof {
                            assert(items.deep_view()[i as int] is None);
                            assert(!all_strings(items.deep_view()));
                        }
                        return Err(
                            TonicBufBuildError::ConfigParse {
                                path: path.to_owned(),
                                cause: "expected a sequence of strings".to_owned(),
                            },
                        );
                    },
                }
                i += 1;
            }
            proof {
                assert forall|j: int| 0 <= j < items.deep_view().len() implies items.deep_view()[j] is Some by {
                    assert(items@[j] is Some);
                }
                assert(all_strings(items.deep_view()));
                assert forall|j: int|
                    0 <= j < items.deep_view().len() implies out.deep_view()[j] == string_values(
                    items.deep_view(),
                )[j] by {
                    assert(out@[j]@ == items@[j]->Some_0@);
                }
                assert(out.deep_view() =~= string_values(items.deep_view()));
            }
            Ok(Some(out))
        },
    }
}

impl BufYaml {
    /// The declared dependency references, empty where the field was absent.
    pub open spec fn spec_deps(&self) -> Seq<Seq<char>> {
        match self.deps {
            None => seq![],
            Some(d) => d.deep_view(),
        }
    }

    /// Decodes a module configuration from YAML text; `path` names the file
    /// the text came from, for diagnostics. The `deps` field, when present,
    /// must be a sequence of dependency-reference strings; absent or null
    /// means no dependencies.
    pub fn from_yaml_text(text: &str, path: &str) -> (r: Result<BufYaml, TonicBufBuildError>)
        ensures
            match r {
                Ok(cfg) => spec_list_config(string_list_field(text@, "deps"@)) == Ok::<_, ()>(
                    cfg.deps.deep_view(),
                ),
                Err(e) => ({
                    &&& spec_list_config(string_list_field(text@, "deps"@)) is Err
                    &&& e matches TonicBufBuildError::ConfigParse { path: p, .. } && p@ == path@
                }),
            },
    {
        match load_string_list_config(text, path, "deps") {
            Ok(d) => Ok(BufYaml { deps: d }),
            Err(e) => Err(e),
        }
    }
}

impl BufWorkYaml {
    /// The declared member directories, empty where the field was absent.
    pub open spec fn spec_directories(&self) -> Seq<Seq<char>> {
        match self.directories {
            None => seq![],
            Some(d) => d.deep_view(),
        }
    }

    /// Decodes a workspace configuration from YAML text; `path` names the
    /// file the text came from, for diagnostics. The `directories` field,
    /// when present, must be a sequence of relative directory strings.
    pub fn from_yaml_text(text: &str, path: &str) -> (r: Result<BufWorkYaml, TonicBufBuildError>)
        ensures
            match r {
                Ok(cfg) => spec_list_config(string_list_field(text@, "directories"@)) == Ok::<
                    _,
                    (),
                >(cfg.directories.deep_view()),
                Err(e) => ({
                    &&& spec_list_config(string_list_field(text@, "directories"@)) is Err
                    &&& e matches TonicBufBuildError::ConfigParse { path: p, .. } && p@ == path@
                }),
            },
    {
        match load_string_list_config(text, path, "directories") {
            Ok(d) => Ok(BufWorkYaml { directories: d }),
            Err(e) => Err(e),
        }
    }

    /// The workspace members' directories: each configured relative
    /// directory resolved against the workspace root, in configuration
    /// order.
    pub fn member_dirs(&self, workspace_dir: &str) -> (r: Vec<String>)
        ensures
            r.deep_view().len() == self.spec_directories().len(),
            forall|i: int|
                0 <= i < r.deep_view().len() ==> r.deep_view()[i] == workspace_dir@ + "/"@
                    + self.spec_directories()[i],
    {
        let mut r: Vec<String> = Vec::new();
        match &self.directories {
            None => {},
            Some(dirs) => {
                let mut i: usize = 0;
                while i < dirs.len()
                    invariant
                        i <= dirs.len(),
                        r@.len() == i as int,
                        self.spec_directories() == dirs.deep_view(),
                        forall|j: int|
                            0 <= j < i as int ==> r@[j]@ == workspace_dir@ + "/"@ + dirs@[j]@,
                    decreases dirs.len() - i,
                {
                    r.push(join_path(workspace_dir, dirs[i].as_str()));
                    i += 1;
                }
                proof {
                    assert forall|j: int|
                        0 <= j < r.deep_view().len() implies r.deep_view()[j] == workspace_dir@
                        + "/"@ + self.spec_directories()[j] by {
                        assert(r@[j]@ == workspace_dir@ + "/"@ + dirs@[j]@);
                        assert(dirs.deep_view()[j] == dirs@[j]@);
                    }
                }
            },
        }
        r
    }
}

/// One subprocess invocation of the external schema tool, described as
/// plain values: the program, its arguments in order, and the directory to
/// launch it from, where one is required.
pub struct Cmd {
    pub program: String,
    pub args: Vec<String>,
    pub cwd: Option<String>,
}

/// The mathematical shadow of `Cmd`.
#[verifier::ext_equal]
pub struct CmdView {
    pub program: Seq<char>,
    pub args: Seq<Seq<char>>,
    pub cwd: Option<Seq<char>>,
}

impl View for Cmd {
    type V = CmdView;

    open spec fn view(&self) -> CmdView {
        CmdView { program: self.program@, args: self.args.deep_view(), cwd: self.cwd.deep_view() }
    }
}

impl DeepView for Cmd {
    type V = CmdView;

    open spec fn deep_view(&self) -> CmdView {
        self.view()
    }
}

/// The `buf export <source> -o <staging>` invocation for one export source,
/// launched from the module's directory.
pub open spec fn spec_export_cmd(
    source: Seq<char>,
    module_dir: Seq<char>,
    staging_dir: Seq<char>,
) -> CmdView {
    CmdView {
        program: "buf"@,
        args: seq!["export"@, source, "-o"@, staging_dir],
        cwd: Some(module_dir),
    }
}

/// The `buf ls-files <dir>` invocation.
pub open spec fn spec_ls_files_cmd(dir: Seq<char>) -> CmdView {
    CmdView { program: "buf"@, args: seq!["ls-files"@, dir], cwd: None }
}

pub fn export_cmd(source: &str, module_dir: &str, staging_dir: &str) -> (r: Cmd)
    ensures
        r@ == spec_export_cmd(source@, module_dir@, staging_dir@),
{
    let mut args: Vec<String> = Vec::new();
    args.push("export".to_owned());
    args.push(source.to_owned());
    args.push("-o".to_owned());
    args.push(staging_dir.to_owned());
    let c = Cmd { program: "buf".to_owned(), args, cwd: Some(module_dir.to_owned()) };
    proof {
        assert(c@.args =~= spec_export_cmd(source@, module_dir@, staging_dir@).args);
        assert(c@ =~= spec_export_cmd(source@, module_dir@, staging_dir@));
    }
    c
}

/// Builds the `buf ls-files` invocation against a directory.
pub fn ls_files_cmd(dir: &str) -> (r: Cmd)
    ensures
        r@ == spec_ls_files_cmd(dir@),
{
    let mut args: Vec<String> = Vec::new();
    args.push("ls-files".to_owned());
    args.push(dir.to_owned());
    let c = Cmd { program: "buf".to_owned(), args, cwd: None };
    proof {
        assert(c@.args =~= spec_ls_files_cmd(dir@).args);
        assert(c@ =~= spec_ls_files_cmd(dir@));
    }
    c
}

impl BufYaml {
    /// The ordered export invocations for this module: first the module's
    /// own files (source `.`), then one invocation per declared dependency,
    /// in configuration order — `N` dependencies give exactly `N + 1`
    /// commands.
    pub fn export_plan(&self, module_dir: &str, staging_dir: &str) -> (r: Vec<Cmd>)
        ensures
            r.deep_view().len() == 1 + self.spec_deps().len(),
            r.deep_view()[0] == spec_export_cmd("."@, module_dir@, staging_dir@),
            forall|i: int|
                0 <= i < self.spec_deps().len() ==> r.deep_view()[i + 1] == spec_export_cmd(
                    self.spec_deps()[i],
                    module_dir@,
                    staging_dir@,
                ),
    {
        let mut r: Vec<Cmd> = Vec::new();
        r.push(export_cmd(".", module_dir, staging_dir));
        match &self.deps {
            None => {},
            Some(deps) => {
                let mut i: usize = 0;
                while i < deps.len()
                    invariant
                        i <= deps.len(),
                        r.deep_view().len() == 1 + i as int,
                        self.spec_deps() == deps.deep_view(),
                        r.deep_view()[0] == spec_export_cmd("."@, module_dir@, staging_dir@),
                        forall|j: int|
                            0 <= j < i as int ==> r.deep_view()[j + 1] == spec_export_cmd(
                                deps.deep_view()[j],
                                module_dir@,
                                staging_dir@,
                            ),
                    decreases deps.len() - i,
                {
                    r.push(export_cmd(deps[i].as_str(), module_dir, staging_dir));
                    i += 1;
                }
            },
        }
        r
    }
}

/// The space-separated tail of a rendered command: one leading space before
/// each argument.
pub open spec fn spec_spaced(args: Seq<Seq<char>>) -> Seq<char>
    decreases args.len(),
{
    if args.len() == 0 {
        Seq::empty()
    } else {
        seq![' '] + args[0] + spec_spaced(args.drop_first())
    }
}

/// The human-readable rendering of a command: the program followed by each
/// argument, space-separated.
pub open spec fn spec_render_cmd(c: CmdView) -> Seq<char> {
    c.program + spec_spaced(c.args)
}

proof fn lemma_spaced_push(s: Seq<Seq<char>>, x: Seq<char>)
    ensures
        spec_spaced(s.push(x)) == spec_spaced(s) + seq![' '] + x,
    decreases s.len(),
{
    let p = s.push(x);
    if s.len() == 0 {
        assert(p[0] == x);
        assert(p.drop_first() =~= Seq::<Seq<char>>::empty());
        assert(spec_spaced(p.drop_first()) == Seq::<char>::empty());
        assert(spec_spaced(p) == seq![' '] + x + Seq::<char>::empty());
        assert(spec_spaced(s) == Seq::<char>::empty());
        assert(seq![' '] + x + Seq::<char>::empty() =~= Seq::<char>::empty() + seq![' '] + x);
    } else {
        assert(p[0] == s[0]);
        assert(p.drop_first() =~= s.drop_first().push(x));
        lemma_spaced_push(s.drop_first(), x);
        assert(spec_spaced(p) == seq![' '] + s[0] + (spec_spaced(s.drop_first()) + seq![' ']
            + x));
        assert(seq![' '] + s[0] + (spec_spaced(s.drop_first()) + seq![' '] + x) =~= (seq![' ']
            + s[0] + spec_spaced(s.drop_first())) + seq![' '] + x);
        assert(spec_spaced(s) == seq![' '] + s[0] + spec_spaced(s.drop_first()));
    }
}

/// Renders a command for diagnostics.
pub fn render_cmd(c: &Cmd) -> (r: String)
    ensures
        r@ == spec_render_cmd(c@),
{
    let mut s = c.program.clone();
    let mut i: usize = 0;
    while i < c.args.len()
        invariant
            i <= c.args.len(),
            s@ == c.program@ + spec_spaced(c.args.deep_view().take(i as int)),
        decreases c.args.len() - i,
    {
        proof {
            reveal_strlit(" ");
            assert(c.args.deep_view()[i as int] == c.args@[i as int]@);
            assert(c.args.deep_view().take(i as int + 1) =~= c.args.deep_view().take(
                i as int,
            ).push(c.args.deep_view()[i as int]));
            lemma_spaced_push(c.args.deep_view().take(i as int), c.args.deep_view()[i as int]);
        }
        s.append(" ");
        s.append(c.args[i].as_str());
        proof {
            assert(s@ =~= c.program@ + spec_spaced(c.args.deep_view().take(i as int + 1)));
        }
        i += 1;
    }
    proof {
        assert(c.args.deep_view().take(c.args.len() as int) =~= c.args.deep_view());
    }
    s
}

} // verus!
