use vstd::prelude::*;
use crate::parsers::ProcessorArgs;
use crate::processor::{command_is, texts, ExternalCommand, ProcessError, ProcessPlan, Processor};
use crate::value::{table_get, table_lookup, ConfigValue};

verus! {

/// Usage text of the git processor.
pub const GIT_USAGE: &'static str = "
git processor usage

Configuration:

[git]
react-vite = { source = \"git@github.com:axbg/react-vite-starter\" }                   # default branch
react-webpack = { source = \"git@github.com:axbg/react-webpack-starter\", branch = \"dev\" } # dev branch
react-legacy = [\"git@github.com:axbg/react-vite-starter\", \"dev\"]                     # source, then branch

Execution:

tem react-vite           # clones into a directory with the same name as the repo
tem react-vite myProject # clones into a directory named myProject

";

/// The processor that realises a template by cloning a git repository and
/// removing its history.
pub struct GitProcessor;

/// Where the last path segment of `s` begins: just after its last `/`, or 0.
pub open spec fn segment_start(s: Seq<char>) -> int
    decreases s.len(),
{
    if s.len() == 0 {
        0
    } else if s.last() == '/' {
        s.len() as int
    } else {
        segment_start(s.drop_last())
    }
}

/// The text after the last `/` of `s`, or all of `s`.
pub open spec fn last_segment(s: Seq<char>) -> Seq<char> {
    s.subrange(segment_start(s), s.len() as int)
}

pub open spec fn git_suffix() -> Seq<char> {
    seq!['.', 'g', 'i', 't']
}

pub open spec fn ends_with_git(s: Seq<char>) -> bool {
    s.len() >= 4 && s.subrange(s.len() - 4, s.len() as int) == git_suffix()
}

/// The directory a clone of `source` goes to: its last path segment, without
/// a final `.git`.
pub open spec fn dir_name_of(source: Seq<char>) -> Seq<char> {
    let seg = last_segment(source);
    if ends_with_git(seg) {
        seg.subrange(0, seg.len() - 4)
    } else {
        seg
    }
}

/// The destination: the project name when one is given, else the name drawn
/// from the source.
pub open spec fn target_of(prog_args: ProcessorArgs, source: Seq<char>) -> Seq<char> {
    match prog_args.project {
        Some(p) => p@,
        None => dir_name_of(source),
    }
}

/// A parameter of a git entry: by name in a table, by position in a list.
pub open spec fn param_of(config: ConfigValue, key: Seq<char>, index: int) -> Option<ConfigValue> {
    match config {
        ConfigValue::Table(t) => table_get(t@, key),
        ConfigValue::Array(a) => if index < a@.len() {
            Some(a@[index])
        } else {
            None
        },
        _ => None,
    }
}

pub open spec fn source_param(config: ConfigValue) -> Option<ConfigValue> {
    param_of(config, "source"@, 0)
}

pub open spec fn branch_param(config: ConfigValue) -> Option<ConfigValue> {
    param_of(config, "branch"@, 1)
}

/// The arguments of `git`: `clone`, then `-b` and the branch when there is
/// one, then the source and the destination.
pub open spec fn clone_args(source: Seq<char>, branch: Option<Seq<char>>, target: Seq<char>) -> Seq<
    Seq<char>,
> {
    let b = match branch {
        Some(b) => seq!["-b"@, b],
        None => Seq::empty(),
    };
    seq!["clone"@] + b + seq![source, target]
}

/// What the git processor makes of a request: the arguments of the clone and
/// the destination, or why the entry is refused.
pub open spec fn git_request(prog_args: ProcessorArgs, config: ConfigValue) -> Result<
    (Seq<Seq<char>>, Seq<char>),
    ProcessError,
> {
    match source_param(config) {
        None => Err(ProcessError::MissingSource),
        Some(ConfigValue::Str(source)) => {
            let target = target_of(prog_args, source@);
            match branch_param(config) {
                None => Ok((clone_args(source@, None, target), target)),
                Some(ConfigValue::Str(b)) => Ok((clone_args(source@, Some(b@), target), target)),
                Some(_) => Err(ProcessError::BranchNotText),
            }
        },
        Some(_) => Err(ProcessError::SourceNotText),
    }
}

/// `r` is the git processor's answer: the refusal, or a clone into the
/// destination followed by the removal of the destination's `.git`.
pub open spec fn git_plans(
    prog_args: ProcessorArgs,
    config: ConfigValue,
    r: Result<ProcessPlan, ProcessError>,
) -> bool {
    match git_request(prog_args, config) {
        Err(e) => r == Err::<ProcessPlan, ProcessError>(e),
        Ok((args, target)) => match r {
            Ok(plan) => {
                &&& command_is(plan.command, "git"@, args)
                &&& plan.cleanup is Some
                &&& command_is(plan.cleanup.unwrap(), "rm"@, seq!["-r"@, target + "/.git"@])
            },
            Err(_) => false,
        },
    }
}

/// Finds where the last path segment of `s` begins.
fn find_segment_start(s: &str) -> (r: usize)
    ensures
        r as int == segment_start(s@),
        r <= s@.len(),
{
    let n = s.unicode_len();
    let mut start: usize = 0;
    let mut i: usize = 0;
    while i < n
        invariant
            n == s@.len(),
            i <= n,
            start <= i,
            start as int == segment_start(s@.subrange(0, i as int)),
        decreases n - i,
    {
        assert(s@.subrange(0, i + 1).drop_last() =~= s@.subrange(0, i as int));
        if s.get_char(i) == '/' {
            start = i + 1;
        }
        i = i + 1;
    }
    assert(s@.subrange(0, n as int) =~= s@);
    start
}

/// The directory that a clone of `source` goes to: the last path segment of
/// `source`, with a final `.git` taken off.
pub fn repo_dir_name(source: &str) -> (r: String)
    ensures
        r@ == dir_name_of(source@),
{
    let n = source.unicode_len();
    let start = find_segment_start(source);
    let seg = source.substring_char(start, n);
    let len = seg.unicode_len();
    assert(seg@ == last_segment(source@));
    if len >= 4 && seg.get_char(len - 4) == '.' && seg.get_char(len - 3) == 'g' && seg.get_char(
        len - 2,
    ) == 'i' && seg.get_char(len - 1) == 't' {
        assert(seg@.subrange(len - 4, len as int) =~= git_suffix());
        String::from_str(seg.substring_char(0, len - 4))
    } else {
        assert(len >= 4 ==> seg@.subrange(len - 4, len as int)[0] == seg@[len - 4]);
        assert(len >= 4 ==> seg@.subrange(len - 4, len as int)[1] == seg@[len - 3]);
        assert(len >= 4 ==> seg@.subrange(len - 4, len as int)[2] == seg@[len - 2]);
        assert(len >= 4 ==> seg@.subrange(len - 4, len as int)[3] == seg@[len - 1]);
        String::from_str(seg)
    }
}

/// The destination directory of a clone: the project name when one is given,
/// else the name drawn from `source`.
pub fn target_directory(prog_args: &ProcessorArgs, source: &str) -> (r: String)
    ensures
        r@ == target_of(*prog_args, source@),
{
    match &prog_args.project {
        Some(p) => p.clone(),
        None => repo_dir_name(source),
    }
}

/// Reads a parameter of a git entry, by `key` in a table or by `index` in a list.
fn param<'a>(config: &'a ConfigValue, key: &str, index: usize) -> (r: Option<&'a ConfigValue>)
    ensures
        match r {
            Some(v) => param_of(*config, key@, index as int) == Some(*v),
            None => param_of(*config, key@, index as int) is None,
        },
{
    match config {
        ConfigValue::Table(t) => table_lookup(t, &String::from_str(key)),
        ConfigValue::Array(a) => {
            if index < a.len() {
                Some(&a[index])
            } else {
                None
            }
        },
        _ => None,
    }
}

impl Processor for GitProcessor {
    open spec fn kind_name(&self) -> Seq<char> {
        "git"@
    }

    open spec fn usage(&self) -> Seq<char> {
        GIT_USAGE@
    }

    open spec fn plans(
        &self,
        prog_args: ProcessorArgs,
        config: ConfigValue,
        r: Result<ProcessPlan, ProcessError>,
    ) -> bool {
        git_plans(prog_args, config, r)
    }

    fn types(&self) -> (r: String) {
        String::from_str("git")
    }

    fn help(&self) -> (r: String) {
        String::from_str(GIT_USAGE)
    }

    fn process(&self, prog_args: ProcessorArgs, config: &ConfigValue) -> (r: Result<
        ProcessPlan,
        ProcessError,
    >) {
        let source = match param(config, "source", 0) {
            None => return Err(ProcessError::MissingSource),
            Some(ConfigValue::Str(s)) => s,
            Some(_) => return Err(ProcessError::SourceNotText),
        };
        let branch = match param(config, "branch", 1) {
            None => None,
            Some(ConfigValue::Str(b)) => Some(b),
            Some(_) => return Err(ProcessError::BranchNotText),
        };
        let target = target_directory(&prog_args, source.as_str());
        let mut args: Vec<String> = Vec::new();
        args.push(String::from_str("clone"));
        match branch {
            Some(b) => {
                args.push(String::from_str("-b"));
                args.push(b.clone());
            },
            None => {},
        }
        args.push(source.clone());
        args.push(target.clone());
        let ghost b = match branch {
            Some(b) => Some(b@),
            None => None::<Seq<char>>,
        };
        assert(texts(args@) =~= clone_args(source@, b, target@));
        let mut metadata = target;
        metadata.append("/.git");
        let cleanup_args = vec![String::from_str("-r"), metadata];
        assert(texts(cleanup_args@) =~= seq!["-r"@, target@ + "/.git"@]);
        Ok(
            ProcessPlan {
                command: ExternalCommand { program: String::from_str("git"), args },
                cleanup: Some(ExternalCommand { program: String::from_str("rm"), args: cleanup_args }),
            },
        )
    }
}

} // verus!
