use vstd::prelude::*;

verus! {

/// Settings of one watch session, as read from the configuration file.
pub struct ConfigFile {
    /// Paths to watch; all of them are passed to the script, in order.
    pub path: Vec<String>,
    /// Extra arguments placed after the paths.
    pub script_args: Option<Vec<String>>,
    /// Debounce window and settle delay, in seconds.
    pub delay: u64,
    /// Whether debug messages are shown.
    pub verbose: Option<bool>,
    /// Regular expression of paths whose changes are ignored.
    pub ignore_pattern: Option<String>,
    /// Kind of script to run (`python`, `node`, `go`, ...).
    pub script_type: Option<String>,
}

/// Why a script could not be (re)started from a configuration.
#[derive(Debug, PartialEq, Eq)]
pub enum RestartError {
    /// The configuration names no script type.
    MissingScriptType,
    /// The configuration names a script type that has no known command.
    UnsupportedScriptType(String),
}

impl RestartError {
    /// The text that describes this error.
    pub open spec fn text(&self) -> Seq<char> {
        match self {
            RestartError::MissingScriptType => "Missing script type in config"@,
            RestartError::UnsupportedScriptType(t) => "Unsupported script type: "@ + t@,
        }
    }

    /// A message that describes this error, naming the offending script type.
    pub fn describe(&self) -> (r: String)
        ensures
            r@ == self.text(),
    {
        match self {
            RestartError::MissingScriptType => String::from_str("Missing script type in config"),
            RestartError::UnsupportedScriptType(t) => String::from_str(
                "Unsupported script type: ",
            ).concat(t.as_str()),
        }
    }
}

/// Whether every watched path exists, and there is at least one; `exists`
/// says, path by path, whether it exists.
pub open spec fn paths_usable(exists: Seq<bool>) -> bool {
    exists.len() > 0 && forall|i: int| 0 <= i < exists.len() ==> #[trigger] exists[i]
}

/// Checks the watched paths of a configuration, given whether each exists.
pub fn check_paths(exists: &Vec<bool>) -> (r: bool)
    ensures
        r == paths_usable(exists@),
{
    if exists.len() == 0 {
        return false;
    }
    let mut i: usize = 0;
    while i < exists.len()
        invariant
            i <= exists.len(),
            forall|k: int| 0 <= k < i ==> #[trigger] exists@[k],
        decreases exists.len() - i,
    {
        if !exists[i] {
            return false;
        }
        i = i + 1;
    }
    true
}

/// The text of each string in `v`.
pub open spec fn texts(v: Seq<String>) -> Seq<Seq<char>> {
    v.map_values(|s: String| s@)
}

/// The text of each string slice in `v`.
pub open spec fn str_texts(v: Seq<&str>) -> Seq<Seq<char>> {
    v.map_values(|s: &str| s@)
}

/// The program and the leading arguments that run a script of type `t`, or
/// `None` for a type with no known command.
pub open spec fn command_for(t: Seq<char>) -> Option<(Seq<char>, Seq<Seq<char>>)> {
    if t == "python"@ {
        Some(("python3"@, seq![]))
    } else if t == "python2"@ {
        Some(("python2"@, seq![]))
    } else if t == "node"@ {
        Some(("node"@, seq![]))
    } else if t == "lua"@ {
        Some(("lua"@, seq![]))
    } else if t == "php"@ {
        Some(("php"@, seq![]))
    } else if t == "go"@ {
        Some(("go"@, seq!["run"@]))
    } else if t == "rust"@ {
        Some(("cargo"@, seq!["run"@, "--"@]))
    } else if t == "sh"@ {
        Some(("sh"@, seq![]))
    } else {
        None
    }
}

/// Whether `a` and `b` hold the same text.
fn same_text(a: &str, b: &str) -> (r: bool)
    ensures
        r == (a@ == b@),
{
    a.to_owned() == b.to_owned()
}

/// Looks up the program and the leading arguments for a script type.
pub fn get_command_config(script_type: &str) -> (r: Result<(&'static str, Vec<&'static str>), RestartError>)
    ensures
        match command_for(script_type@) {
            Some((program, defaults)) => r matches Ok((p, d)) && p@ == program && str_texts(d@)
                == defaults,
            None => r matches Err(RestartError::UnsupportedScriptType(s)) && s@ == script_type@,
        },
{
    if same_text(script_type, "python") {
        Ok(("python3", vec![]))
    } else if same_text(script_type, "python2") {
        Ok(("python2", vec![]))
    } else if same_text(script_type, "node") {
        Ok(("node", vec![]))
    } else if same_text(script_type, "lua") {
        Ok(("lua", vec![]))
    } else if same_text(script_type, "php") {
        Ok(("php", vec![]))
    } else if same_text(script_type, "go") {
        let d: Vec<&'static str> = vec!["run"];
        proof {
            assert(str_texts(d@) =~= seq!["run"@]);
        }
        Ok(("go", d))
    } else if same_text(script_type, "rust") {
        let d: Vec<&'static str> = vec!["run", "--"];
        proof {
            assert(str_texts(d@) =~= seq!["run"@, "--"@]);
        }
        Ok(("cargo", d))
    } else if same_text(script_type, "sh") {
        Ok(("sh", vec![]))
    } else {
        Err(RestartError::UnsupportedScriptType(script_type.to_owned()))
    }
}

/// A program to start and the arguments to start it with.
pub struct LaunchCommand {
    pub program: String,
    pub args: Vec<String>,
}

/// The argument list of a launch: the script type's leading arguments, then
/// every watched path in order, then the extra arguments.
pub open spec fn launch_args(
    defaults: Seq<Seq<char>>,
    paths: Seq<Seq<char>>,
    extra: Seq<Seq<char>>,
) -> Seq<Seq<char>> {
    defaults + paths + extra
}

/// The extra arguments of a configuration, none when it gives none.
pub open spec fn extra_args(config: &ConfigFile) -> Seq<Seq<char>> {
    match config.script_args {
        Some(a) => texts(a@),
        None => seq![],
    }
}

/// What a restart under `config` launches: the program and the full argument
/// list, or why nothing can be launched.
pub open spec fn planned_launch(config: &ConfigFile) -> Result<(Seq<char>, Seq<Seq<char>>), Option<Seq<char>>> {
    match config.script_type {
        None => Err(None),
        Some(t) => match command_for(t@) {
            None => Err(Some(t@)),
            Some((program, defaults)) => Ok(
                (program, launch_args(defaults, texts(config.path@), extra_args(config))),
            ),
        },
    }
}

/// Whether `r` is the launch that `config` plans: the same program and
/// arguments, or the error that names the same cause.
pub open spec fn launch_agrees(config: &ConfigFile, r: Result<LaunchCommand, RestartError>) -> bool {
    match planned_launch(config) {
        Ok((program, args)) => r matches Ok(c) && c.program@ == program && texts(c.args@) == args,
        Err(None) => r matches Err(RestartError::MissingScriptType),
        Err(Some(t)) => r matches Err(RestartError::UnsupportedScriptType(s)) && s@ == t,
    }
}

/// Appends a copy of each string of `items` to `out`.
fn append_copies(out: &mut Vec<String>, items: &Vec<String>)
    ensures
        texts(final(out)@) == texts(old(out)@) + texts(items@),
{
    let ghost start = texts(out@);
    let mut i: usize = 0;
    while i < items.len()
        invariant
            i <= items.len(),
            texts(out@) == start + texts(items@.subrange(0, i as int)),
        decreases items.len() - i,
    {
        let ghost before = out@;
        out.push(items[i].clone());
        i = i + 1;
        proof {
            assert(texts(out@) =~= texts(before) + seq![items@[i - 1]@]);
            assert(texts(items@.subrange(0, i as int)) =~= texts(items@.subrange(0, i - 1)) + seq![
                items@[i - 1]@,
            ]);
        }
    }
    proof {
        assert(items@.subrange(0, i as int) =~= items@);
    }
}

/// Builds the command that a restart under `config` runs: the program of its
/// script type, whose leading arguments come first, then all watched paths in
/// order, then the extra arguments. All paths go to one process.
pub fn launch_command(config: &ConfigFile) -> (r: Result<LaunchCommand, RestartError>)
    ensures
        launch_agrees(config, r),
{
    let script_type = match &config.script_type {
        Some(t) => t,
        None => {
            return Err(RestartError::MissingScriptType);
        },
    };
    let (program, defaults) = match get_command_config(script_type.as_str()) {
        Ok(found) => found,
        Err(e) => {
            return Err(e);
        },
    };
    let mut args: Vec<String> = Vec::new();
    let mut i: usize = 0;
    while i < defaults.len()
        invariant
            i <= defaults.len(),
            texts(args@) == str_texts(defaults@.subrange(0, i as int)),
        decreases defaults.len() - i,
    {
        let ghost before = args@;
        args.push(String::from_str(defaults[i]));
        i = i + 1;
        proof {
            assert(texts(args@) =~= texts(before) + seq![defaults@[i - 1]@]);
            assert(str_texts(defaults@.subrange(0, i as int)) =~= str_texts(
                defaults@.subrange(0, i - 1),
            ) + seq![defaults@[i - 1]@]);
            assert(texts(args@) =~= str_texts(defaults@.subrange(0, i as int)));
        }
    }
    proof {
        assert(defaults@.subrange(0, i as int) =~= defaults@);
    }
    append_copies(&mut args, &config.path);
    match &config.script_args {
        Some(extra) => append_copies(&mut args, extra),
        None => {
            assert(texts(args@) =~= texts(args@) + seq![]);
        },
    }
    Ok(LaunchCommand { program: String::from_str(program), args })
}

} // verus!
