//! Context providers: sources of text that is added to the system prompt or
//! to the conversation.

use vstd::prelude::*;
use crate::llm::types::Message;
use crate::text::{concat, concat3, usize_to_string};

verus! {

/// A source of context for the model.
pub trait ContextProvider {
    /// The name of this context provider.
    fn name(&self) -> String;

    /// The context for the conversation as it stands: `Ok(None)` where there
    /// is nothing to add, `Err` with a message where the context could not
    /// be had.
    fn get_context(&self, messages: &Vec<Message>) -> Result<Option<String>, String>;

    /// Whether the context goes into the conversation as a user message
    /// rather than into the system prompt, where it goes unless the provider
    /// says otherwise.
    fn inject_as_message(&self) -> bool {
        false
    }
}

/// Settings of a provider that shows the project's files as a tree.
#[derive(Debug)]
pub struct FileStructureProvider {
    pub base_dir: String,
    pub max_depth: usize,
    pub exclude_patterns: Vec<String>,
}

/// The model of a [`FileStructureProvider`].
pub ghost struct FileStructureView {
    pub base_dir: Seq<char>,
    pub max_depth: usize,
    pub exclude_patterns: Seq<Seq<char>>,
}

impl DeepView for FileStructureProvider {
    type V = FileStructureView;

    open spec fn deep_view(&self) -> FileStructureView {
        FileStructureView {
            base_dir: self.base_dir@,
            max_depth: self.max_depth,
            exclude_patterns: self.exclude_patterns.deep_view(),
        }
    }
}

/// The directories that a file tree leaves out unless told otherwise.
pub open spec fn default_excludes() -> Seq<Seq<char>> {
    seq![".git"@, "node_modules"@, "target"@, "__pycache__"@, ".venv"@]
}

/// The arguments that leave the patterns out of a tree: `-I` before each.
pub open spec fn exclude_arguments(patterns: Seq<Seq<char>>) -> Seq<Seq<char>>
    decreases patterns.len(),
{
    if patterns.len() == 0 {
        Seq::empty()
    } else {
        exclude_arguments(patterns.drop_last()).push("-I"@).push(patterns.last())
    }
}

/// The context that a tree gives: nothing for an empty tree, else the tree in
/// a fenced block under its heading.
pub open spec fn structure_context(tree: Seq<char>) -> Option<Seq<char>> {
    if tree.len() == 0 {
        None
    } else {
        Some("Project structure:\n```\n"@ + tree + "\n```"@)
    }
}

impl FileStructureProvider {
    /// A provider for the directory `base_dir`, three levels deep, without
    /// the usual build and tool directories.
    pub fn new(base_dir: &str) -> (r: FileStructureProvider)
        ensures
            r.deep_view() == (FileStructureView {
                base_dir: base_dir@,
                max_depth: 3,
                exclude_patterns: default_excludes(),
            }),
    {
        let mut exclude_patterns: Vec<String> = Vec::new();
        exclude_patterns.push(".git".to_string());
        exclude_patterns.push("node_modules".to_string());
        exclude_patterns.push("target".to_string());
        exclude_patterns.push("__pycache__".to_string());
        exclude_patterns.push(".venv".to_string());
        proof {
            assert(exclude_patterns.deep_view() =~= default_excludes());
        }
        FileStructureProvider { base_dir: base_dir.to_string(), max_depth: 3, exclude_patterns }
    }

    /// The same provider, `depth` levels deep.
    pub fn with_max_depth(self, depth: usize) -> (r: FileStructureProvider)
        ensures
            r.deep_view() == (FileStructureView { max_depth: depth, ..self.deep_view() }),
    {
        let mut provider = self;
        provider.max_depth = depth;
        provider
    }

    /// The same provider, leaving out the patterns given and no others.
    pub fn with_exclude_patterns(self, patterns: Vec<String>) -> (r: FileStructureProvider)
        ensures
            r.deep_view() == (FileStructureView {
                exclude_patterns: patterns.deep_view(),
                ..self.deep_view()
            }),
    {
        let mut provider = self;
        provider.exclude_patterns = patterns;
        provider
    }

    /// The name of this provider.
    pub fn name(&self) -> (r: &'static str)
        ensures
            r@ == "file_structure"@,
    {
        "file_structure"
    }

    /// The arguments for the `tree` command: the depth, no report, and each
    /// pattern to leave out.
    pub fn tree_arguments(&self) -> (r: Vec<String>)
        ensures
            r.deep_view() == seq!["-L"@, crate::text::decimal(self.max_depth as nat), "--noreport"@]
                + exclude_arguments(self.exclude_patterns.deep_view()),
    {
        let mut args: Vec<String> = Vec::new();
        args.push("-L".to_string());
        args.push(usize_to_string(self.max_depth));
        args.push("--noreport".to_string());
        let ghost head = args.deep_view();
        proof {
            assert(head =~= seq![
                "-L"@,
                crate::text::decimal(self.max_depth as nat),
                "--noreport"@,
            ]);
            assert(head + exclude_arguments(self.exclude_patterns.deep_view().take(0)) =~= head);
        }
        let mut i: usize = 0;
        while i < self.exclude_patterns.len()
            invariant
                0 <= i <= self.exclude_patterns.len(),
                args.deep_view() == head + exclude_arguments(
                    self.exclude_patterns.deep_view().take(i as int),
                ),
            decreases self.exclude_patterns.len() - i,
        {
            proof {
                let next = self.exclude_patterns.deep_view().take(i + 1);
                assert(next.drop_last() =~= self.exclude_patterns.deep_view().take(i as int));
                assert(next.last() == self.exclude_patterns[i as int]@);
            }
            let ghost before = args;
            args.push("-I".to_string());
            let ghost middle = args;
            args.push(self.exclude_patterns[i].clone());
            proof {
                crate::llm::types::lemma_deep_view_push(before, middle, middle[middle.len() - 1]);
                crate::llm::types::lemma_deep_view_push(middle, args, args[args.len() - 1]);
                assert(args.deep_view() =~= head + exclude_arguments(
                    self.exclude_patterns.deep_view().take(i + 1),
                ));
            }
            i += 1;
        }
        proof {
            assert(self.exclude_patterns.deep_view().take(self.exclude_patterns.len() as int)
                =~= self.exclude_patterns.deep_view());
        }
        args
    }

    /// The arguments for the `find` command that stands in where `tree` is
    /// not to be had.
    pub fn find_arguments(&self) -> (r: Vec<String>)
        ensures
            r.deep_view() == seq![
                "."@,
                "-maxdepth"@,
                crate::text::decimal(self.max_depth as nat),
                "-type"@,
                "f"@,
            ],
    {
        let mut args: Vec<String> = Vec::new();
        args.push(".".to_string());
        args.push("-maxdepth".to_string());
        args.push(usize_to_string(self.max_depth));
        args.push("-type".to_string());
        args.push("f".to_string());
        proof {
            assert(args.deep_view() =~= seq![
                "."@,
                "-maxdepth"@,
                crate::text::decimal(self.max_depth as nat),
                "-type"@,
                "f"@,
            ]);
        }
        args
    }

    /// The context for a tree as the command printed it.
    pub fn context_for(&self, tree: &str) -> (r: Option<String>)
        ensures
            r.deep_view() == structure_context(tree@),
    {
        if tree.is_empty() {
            None
        } else {
            Some(concat3("Project structure:\n```\n", tree, "\n```"))
        }
    }
}

/// Settings of a provider that shows the state of the git repository.
#[derive(Debug)]
pub struct GitStatusProvider {
    pub base_dir: String,
    pub include_diff: bool,
    pub recent_commits: usize,
}

/// The model of a [`GitStatusProvider`].
pub ghost struct GitStatusView {
    pub base_dir: Seq<char>,
    pub include_diff: bool,
    pub recent_commits: usize,
}

impl DeepView for GitStatusProvider {
    type V = GitStatusView;

    open spec fn deep_view(&self) -> GitStatusView {
        GitStatusView {
            base_dir: self.base_dir@,
            include_diff: self.include_diff,
            recent_commits: self.recent_commits,
        }
    }
}

/// What the git commands gave. `None` stands for a command that did not
/// succeed, or that was not run.
#[derive(Debug)]
pub struct GitOutputs {
    /// Output of `git status --short`.
    pub status: Option<String>,
    /// Output of `git branch --show-current`, trimmed.
    pub branch: Option<String>,
    /// Output of `git log --oneline`.
    pub log: Option<String>,
    /// Output of `git diff --stat`.
    pub diff: Option<String>,
}

/// The status section of a git report.
pub open spec fn git_status_section(status: Seq<char>) -> Seq<char> {
    "Git status:\n"@ + if status.len() == 0 {
        "Working tree clean\n"@
    } else {
        status
    }
}

/// The branch section of a git report.
pub open spec fn git_branch_section(branch: Option<Seq<char>>) -> Seq<char> {
    match branch {
        Some(b) => "\nCurrent branch: "@ + b,
        None => Seq::empty(),
    }
}

/// The commits section of a git report.
pub open spec fn git_log_section(wanted: bool, log: Option<Seq<char>>) -> Seq<char> {
    match log {
        Some(l) => if wanted {
            "\n\nRecent commits:\n"@ + l
        } else {
            Seq::empty()
        },
        None => Seq::empty(),
    }
}

/// The changes section of a git report.
pub open spec fn git_diff_section(wanted: bool, diff: Option<Seq<char>>) -> Seq<char> {
    match diff {
        Some(d) => if wanted && d.len() > 0 {
            "\n\nUnstaged changes:\n"@ + d
        } else {
            Seq::empty()
        },
        None => Seq::empty(),
    }
}

/// The git report for what the commands gave. Outside a repository it says
/// so. Else it holds the status, then the branch, the recent commits where
/// any are asked for, and the changes where they are asked for and there are
/// any.
pub open spec fn git_report(settings: GitStatusView, outputs: GitOutputs) -> Seq<char> {
    match outputs.status {
        None => "Not a git repository"@,
        Some(status) => git_status_section(status@) + git_branch_section(outputs.branch.deep_view())
            + git_log_section(settings.recent_commits > 0, outputs.log.deep_view())
            + git_diff_section(settings.include_diff, outputs.diff.deep_view()),
    }
}

impl GitStatusProvider {
    /// A provider for the repository at `base_dir`, with five recent commits
    /// and without changes.
    pub fn new(base_dir: &str) -> (r: GitStatusProvider)
        ensures
            r.deep_view() == (GitStatusView {
                base_dir: base_dir@,
                include_diff: false,
                recent_commits: 5,
            }),
    {
        GitStatusProvider { base_dir: base_dir.to_string(), include_diff: false, recent_commits: 5 }
    }

    /// The same provider, with the changes.
    pub fn with_diff(self) -> (r: GitStatusProvider)
        ensures
            r.deep_view() == (GitStatusView { include_diff: true, ..self.deep_view() }),
    {
        let mut provider = self;
        provider.include_diff = true;
        provider
    }

    /// The same provider, with `count` recent commits.
    pub fn with_recent_commits(self, count: usize) -> (r: GitStatusProvider)
        ensures
            r.deep_view() == (GitStatusView { recent_commits: count, ..self.deep_view() }),
    {
        let mut provider = self;
        provider.recent_commits = count;
        provider
    }

    /// The name of this provider.
    pub fn name(&self) -> (r: &'static str)
        ensures
            r@ == "git_status"@,
    {
        "git_status"
    }

    /// The argument that limits `git log` to the commits asked for.
    pub fn log_limit_argument(&self) -> (r: String)
        ensures
            r@ == "-"@ + crate::text::decimal(self.recent_commits as nat),
    {
        concat("-", usize_to_string(self.recent_commits).as_str())
    }

    /// The git report for what the commands gave.
    pub fn get_git_status(&self, outputs: &GitOutputs) -> (r: String)
        ensures
            r@ == git_report(self.deep_view(), *outputs),
    {
        let status = match &outputs.status {
            None => {
                return "Not a git repository".to_string();
            },
            Some(status) => status,
        };
        let mut result = "Git status:\n".to_string();
        if status.as_str().is_empty() {
            result = concat(result.as_str(), "Working tree clean\n");
        } else {
            result = concat(result.as_str(), status.as_str());
        }
        match &outputs.branch {
            Some(branch) => {
                result = concat3(result.as_str(), "\nCurrent branch: ", branch.as_str());
            },
            None => {
                proof {
                    assert(result@ + Seq::<char>::empty() =~= result@);
                }
            },
        }
        let ghost with_branch = result@;
        match &outputs.log {
            Some(log) => {
                if self.recent_commits > 0 {
                    result = concat3(result.as_str(), "\n\nRecent commits:\n", log.as_str());
                }
            },
            None => {},
        }
        proof {
            assert(result@ =~= with_branch + git_log_section(
                self.recent_commits > 0,
                outputs.log.deep_view(),
            ));
        }
        let ghost with_log = result@;
        match &outputs.diff {
            Some(diff) => {
                if self.include_diff && !diff.as_str().is_empty() {
                    result = concat3(result.as_str(), "\n\nUnstaged changes:\n", diff.as_str());
                }
            },
            None => {},
        }
        proof {
            assert(result@ =~= with_log + git_diff_section(
                self.include_diff,
                outputs.diff.deep_view(),
            ));
            assert(result@ =~= git_report(self.deep_view(), *outputs));
        }
        result
    }
}

/// A provider that always gives the same context.
#[derive(Debug)]
pub struct StaticContextProvider {
    pub name: String,
    pub context: String,
    pub as_message: bool,
}

/// The model of a [`StaticContextProvider`].
pub ghost struct StaticContextView {
    pub name: Seq<char>,
    pub context: Seq<char>,
    pub as_message: bool,
}

impl DeepView for StaticContextProvider {
    type V = StaticContextView;

    open spec fn deep_view(&self) -> StaticContextView {
        StaticContextView { name: self.name@, context: self.context@, as_message: self.as_message }
    }
}

impl StaticContextProvider {
    /// A provider named `name` that gives `context`, for the system prompt.
    pub fn new(name: &str, context: &str) -> (r: StaticContextProvider)
        ensures
            r.deep_view() == (StaticContextView {
                name: name@,
                context: context@,
                as_message: false,
            }),
    {
        StaticContextProvider {
            name: name.to_string(),
            context: context.to_string(),
            as_message: false,
        }
    }

    /// The same provider; `as_message` says whether its context goes into
    /// the conversation as a message.
    pub fn inject_as_message(self, as_message: bool) -> (r: StaticContextProvider)
        ensures
            r.deep_view() == (StaticContextView { as_message, ..self.deep_view() }),
    {
        let mut provider = self;
        provider.as_message = as_message;
        provider
    }
}

impl ContextProvider for StaticContextProvider {
    fn name(&self) -> (r: String)
        ensures
            r@ == self.name@,
    {
        self.name.clone()
    }

    fn get_context(&self, _messages: &Vec<Message>) -> (r: Result<Option<String>, String>)
        ensures
            r matches Ok(Some(context)) && context@ == self.context@,
    {
        Ok(Some(self.context.clone()))
    }

    fn inject_as_message(&self) -> (r: bool)
        ensures
            r == self.as_message,
    {
        self.as_message
    }
}

} // verus!
