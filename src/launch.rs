use vstd::prelude::*;
use vstd::string::*;

verus! {

/// The engine process could not be spawned.
#[derive(Debug)]
pub enum LaunchError {
    LaunchFail(String),
}

/// The working directory could not be resolved.
#[derive(Debug)]
pub enum EnvironmentError {
    EnvarRetrievalFailure(String),
}

impl View for LaunchError {
    type V = Seq<char>;

    open spec fn view(&self) -> Seq<char> {
        match self {
            LaunchError::LaunchFail(detail) => detail@,
        }
    }
}

impl View for EnvironmentError {
    type V = Seq<char>;

    open spec fn view(&self) -> Seq<char> {
        match self {
            EnvironmentError::EnvarRetrievalFailure(detail) => detail@,
        }
    }
}

/// Tells where the autohost runs.
pub trait Environment {
    fn get_current_dir(&self) -> Result<String, EnvironmentError>;
}

/// Spawns the engine as a detached process, as a plan describes it.
pub trait Spring {
    fn launch(&self, plan: &LaunchPlan) -> Result<(), LaunchError>;
}

/// How to start the engine: the binary to run, the environment variable that
/// names its write directory, that directory, and the start script that is the
/// engine's sole argument. All paths are absolute.
#[derive(Debug)]
pub struct LaunchPlan {
    pub program: String,
    pub write_dir_variable: String,
    pub write_dir: String,
    pub start_script: String,
}

pub struct LaunchPlanView {
    pub program: Seq<char>,
    pub write_dir_variable: Seq<char>,
    pub write_dir: Seq<char>,
    pub start_script: Seq<char>,
}

impl View for LaunchPlan {
    type V = LaunchPlanView;

    open spec fn view(&self) -> LaunchPlanView {
        LaunchPlanView {
            program: self.program@,
            write_dir_variable: self.write_dir_variable@,
            write_dir: self.write_dir@,
            start_script: self.start_script@,
        }
    }
}

/// `relative` taken from `root`: an absolute `relative` stands alone; else the
/// two are joined with one `/`.
pub open spec fn joined_path(root: Seq<char>, relative: Seq<char>) -> Seq<char> {
    if relative.len() > 0 && relative[0] == '/' {
        relative
    } else if root.len() == 0 || root.last() == '/' {
        root + relative
    } else {
        root + seq!['/'] + relative
    }
}

/// The environment variable through which the engine learns its write directory.
pub open spec fn write_dir_variable() -> Seq<char> {
    "SPRING_WRITEDIR"@
}

/// The plan for the engine under `root`, from the three configured relative paths.
pub open spec fn launch_plan_of(
    root: Seq<char>,
    spring: Seq<char>,
    write_dir: Seq<char>,
    start_script: Seq<char>,
) -> LaunchPlanView {
    LaunchPlanView {
        program: joined_path(root, spring),
        write_dir_variable: write_dir_variable(),
        write_dir: joined_path(root, write_dir),
        start_script: joined_path(root, start_script),
    }
}

pub fn join_path(root: &str, relative: &str) -> (r: String)
    ensures
        r@ == joined_path(root@, relative@),
{
    let relative_len = relative.unicode_len();
    if relative_len > 0 && relative.get_char(0) == '/' {
        return String::from_str(relative);
    }
    let root_len = root.unicode_len();
    let mut path = String::from_str(root);
    if root_len > 0 && root.get_char(root_len - 1) != '/' {
        path.append("/");
        proof {
            reveal_strlit("/");
        }
    }
    path.append(relative);
    path
}

pub fn launch_plan(root: &str, spring: &str, write_dir: &str, start_script: &str) -> (r: LaunchPlan)
    ensures
        r@ == launch_plan_of(root@, spring@, write_dir@, start_script@),
{
    LaunchPlan {
        program: join_path(root, spring),
        write_dir_variable: String::from_str("SPRING_WRITEDIR"),
        write_dir: join_path(root, write_dir),
        start_script: join_path(root, start_script),
    }
}

} // verus!
