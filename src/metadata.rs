use vstd::prelude::*;

verus! {

/// `name` placed under the directory `base`, with one `/` between them.
pub open spec fn child_path_spec(base: Seq<char>, name: Seq<char>) -> Seq<char> {
    if base.len() == 0 || base.last() == '/' {
        base + name
    } else {
        base + seq!['/'] + name
    }
}

pub open spec fn meta_dir_of(base: Seq<char>) -> Seq<char> {
    child_path_spec(base, ".metadata"@)
}

pub open spec fn root_dir_of(base: Seq<char>) -> Seq<char> {
    child_path_spec(meta_dir_of(base), "root"@)
}

pub open spec fn command_file_of(base: Seq<char>) -> Seq<char> {
    child_path_spec(meta_dir_of(base), "commands.txt"@)
}

/// The lines written to a new command file.
pub open spec fn default_command_lines() -> Seq<Seq<char>> {
    seq!["mkdir <Node Name>-Create new Node"@, "rm <Node Name>-Remove empty Nodes"@]
}

/// The three locations of the metadata tree.
pub struct MetadataPaths {
    pub meta_dir: String,
    pub root_dir: String,
    pub command_file: String,
}

impl MetadataPaths {
    /// These are the locations under `base`.
    pub open spec fn under(&self, base: Seq<char>) -> bool {
        &&& self.meta_dir@ == meta_dir_of(base)
        &&& self.root_dir@ == root_dir_of(base)
        &&& self.command_file@ == command_file_of(base)
    }
}

/// One filesystem change of the bootstrap.
pub enum BootstrapStep {
    CreateDir { path: String },
    WriteFile { path: String, lines: Vec<String> },
}

/// A bootstrap step as plain values.
pub enum StepView {
    CreateDir(Seq<char>),
    WriteFile(Seq<char>, Seq<Seq<char>>),
}

impl BootstrapStep {
    pub open spec fn view(&self) -> StepView {
        match self {
            BootstrapStep::CreateDir { path } => StepView::CreateDir(path@),
            BootstrapStep::WriteFile { path, lines } => StepView::WriteFile(
                path@,
                lines@.map_values(|l: String| l@),
            ),
        }
    }
}

/// The changes that set up a metadata tree at the given locations: none
/// when its directory is already there, otherwise the two directories and
/// the default command file.
pub open spec fn steps_at(
    meta_dir: Seq<char>,
    root_dir: Seq<char>,
    command_file: Seq<char>,
    meta_exists: bool,
) -> Seq<StepView> {
    if meta_exists {
        seq![]
    } else {
        seq![
            StepView::CreateDir(meta_dir),
            StepView::CreateDir(root_dir),
            StepView::WriteFile(command_file, default_command_lines()),
        ]
    }
}

/// The changes that set up the metadata tree under `base`.
pub open spec fn planned_steps(base: Seq<char>, meta_exists: bool) -> Seq<StepView> {
    steps_at(meta_dir_of(base), root_dir_of(base), command_file_of(base), meta_exists)
}

pub open spec fn steps_view(steps: Seq<BootstrapStep>) -> Seq<StepView> {
    steps.map_values(|s: BootstrapStep| s.view())
}

/// Places `name` under the directory `base`.
pub fn child_path(base: &str, name: &str) -> (r: String)
    ensures
        r@ == child_path_spec(base@, name@),
{
    let mut path = base.to_owned();
    let n: usize = base.unicode_len();
    if n > 0 && base.get_char(n - 1) != '/' {
        proof {
            reveal_strlit("/");
        }
        path.append("/");
    }
    path.append(name);
    path
}

/// Locates the metadata tree under `base`.
pub fn metadata_paths(base: &str) -> (r: MetadataPaths)
    ensures
        r.under(base@),
{
    let meta_dir = child_path(base, ".metadata");
    let root_dir = child_path(meta_dir.as_str(), "root");
    let command_file = child_path(meta_dir.as_str(), "commands.txt");
    MetadataPaths { meta_dir, root_dir, command_file }
}

/// The lines of a new command file.
pub fn default_commands() -> (r: Vec<String>)
    ensures
        r@.map_values(|l: String| l@) == default_command_lines(),
{
    let r = vec![
        String::from_str("mkdir <Node Name>-Create new Node"),
        String::from_str("rm <Node Name>-Remove empty Nodes"),
    ];
    assert(r@.map_values(|l: String| l@) =~= default_command_lines());
    r
}

/// The filesystem changes that set up the metadata tree at `paths`.
pub fn bootstrap_steps(paths: &MetadataPaths, meta_exists: bool) -> (r: Vec<BootstrapStep>)
    ensures
        steps_view(r@) == steps_at(
            paths.meta_dir@,
            paths.root_dir@,
            paths.command_file@,
            meta_exists,
        ),
{
    let mut steps: Vec<BootstrapStep> = Vec::new();
    if !meta_exists {
        steps.push(BootstrapStep::CreateDir { path: paths.meta_dir.clone() });
        steps.push(BootstrapStep::CreateDir { path: paths.root_dir.clone() });
        steps.push(
            BootstrapStep::WriteFile { path: paths.command_file.clone(), lines: default_commands() },
        );
    }
    assert(steps_view(steps@) =~= steps_at(
        paths.meta_dir@,
        paths.root_dir@,
        paths.command_file@,
        meta_exists,
    ));
    steps
}

/// Setting up the metadata tree a second time, once its directory exists,
/// changes nothing on disk and finds the same locations; the first time it
/// creates both directories and writes the default command file.
pub proof fn lemma_bootstrap_twice(base: Seq<char>, first: MetadataPaths, second: MetadataPaths)
    requires
        first.under(base),
        second.under(base),
    ensures
        planned_steps(base, false) == seq![
            StepView::CreateDir(first.meta_dir@),
            StepView::CreateDir(first.root_dir@),
            StepView::WriteFile(first.command_file@, default_command_lines()),
        ],
        planned_steps(base, true).len() == 0,
        second.meta_dir@ == first.meta_dir@,
        second.root_dir@ == first.root_dir@,
        second.command_file@ == first.command_file@,
{
}

} // verus!
