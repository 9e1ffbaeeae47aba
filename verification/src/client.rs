//! Start-up decisions of one fuzzing worker.
//!
//! A worker runs the target under exactly one instrumentation pipeline. Which
//! one follows from the configuration and from the core that the worker is
//! bound to; a configuration that asks for both kinds of memory-error
//! detection on one core is refused before anything runs.

use vstd::prelude::*;

use crate::harness::Harness;
use crate::options::{lists_core, FuzzerOptions};

verus! {

/// Why a worker cannot start.
#[derive(Clone, Copy, Debug, PartialEq, Eq, Structural)]
pub enum ClientError {
    /// The process was started without a program name.
    MissingProgramName,
    /// Memory-error detection is configured in host mode and in guest mode
    /// for the same worker.
    MultipleAsanModes,
}

/// How a file of value injections is written.
#[derive(Clone, Copy, Debug, PartialEq, Eq, Structural)]
pub enum InjectionFormat {
    Yaml,
    Toml,
}

/// The instrumentation that one worker runs with. Stages are listed in the
/// order in which they are composed.
#[derive(Clone, Copy, Debug, PartialEq, Eq, Structural)]
pub enum Pipeline {
    /// Block coverage with a full trace, to run a recorded input once more.
    DrCov,
    /// Comparison logging, then host-mode memory-error detection, then value
    /// injection if a format is given.
    CmpLogAsan(Option<InjectionFormat>),
    /// Comparison logging, then guest-mode memory-error detection, then value
    /// injection if a format is given.
    CmpLogAsanGuest(Option<InjectionFormat>),
    /// Host-mode memory-error detection, then value injection.
    AsanInjection(InjectionFormat),
    /// Host-mode memory-error detection that reports what it finds.
    AsanReport,
    /// Guest-mode memory-error detection.
    AsanGuest,
    /// Comparison logging, then value injection if a format is given.
    CmpLog(Option<InjectionFormat>),
    /// Value injection alone.
    Injection(InjectionFormat),
    /// No instrumentation.
    Plain,
}

/// What a worker is started with.
#[derive(Debug)]
pub struct Launch {
    /// Program name and arguments of the target.
    pub args: Vec<String>,
    /// Environment of the target.
    pub env: Vec<(String, String)>,
    /// The instrumentation to set up.
    pub pipeline: Pipeline,
}

/// The lower-case form of a string, as `str::to_lowercase` computes it.
pub uninterp spec fn lowercase(s: Seq<char>) -> Seq<char>;

/// `str::to_lowercase`: the result is the lower-case form of `s`, which
/// depends on `s` alone.
#[verifier::external_body]
fn to_lowercase(s: &str) -> (lower: String)
    ensures
        lower@ == lowercase(s@),
{
    s.to_lowercase()
}

/// `suffix` stands at the end of `s`.
pub open spec fn is_suffix(suffix: Seq<char>, s: Seq<char>) -> bool {
    suffix.len() <= s.len() && s.skip(s.len() - suffix.len()) == suffix
}

/// `str::ends_with` with a string as the pattern: whether the characters of
/// `suffix` are the last characters of `s`.
#[verifier::external_body]
fn ends_with(s: &str, suffix: &str) -> (yes: bool)
    ensures
        yes == is_suffix(suffix@, s@),
{
    s.ends_with(suffix)
}

/// The format that a lower-cased file name stands for.
pub open spec fn format_of(lower: Seq<char>) -> Option<InjectionFormat> {
    if is_suffix("yaml"@, lower) || is_suffix("yml"@, lower) {
        Some(InjectionFormat::Yaml)
    } else if is_suffix("toml"@, lower) {
        Some(InjectionFormat::Toml)
    } else {
        None
    }
}

impl InjectionFormat {
    /// Tells the format from a file name that is already in lower case:
    /// a name on `yaml` or `yml` is YAML, one on `toml` is TOML, and no other
    /// name is a file of injections.
    pub fn of_lowered(lower: &str) -> (format: Option<InjectionFormat>)
        ensures
            format == format_of(lower@),
    {
        if ends_with(lower, "yaml") || ends_with(lower, "yml") {
            Some(InjectionFormat::Yaml)
        } else if ends_with(lower, "toml") {
            Some(InjectionFormat::Toml)
        } else {
            None
        }
    }

    /// Tells the format from a file name, whatever its case.
    pub fn detect(file: &str) -> (format: Option<InjectionFormat>)
        ensures
            format == format_of(lowercase(file@)),
    {
        let lower = to_lowercase(file);
        InjectionFormat::of_lowered(lower.as_str())
    }
}

/// The pipeline for a worker, given what is switched on for it. A re-run with
/// block coverage displaces everything else; guest-mode detection takes no
/// value injection with it unless comparisons are logged too.
pub open spec fn pipeline_of(
    rerun_drcov: bool,
    asan: bool,
    asan_guest: bool,
    logging: bool,
    injection: Option<InjectionFormat>,
) -> Pipeline {
    if rerun_drcov {
        Pipeline::DrCov
    } else if asan && logging {
        Pipeline::CmpLogAsan(injection)
    } else if asan_guest && logging {
        Pipeline::CmpLogAsanGuest(injection)
    } else if asan {
        match injection {
            Some(format) => Pipeline::AsanInjection(format),
            None => Pipeline::AsanReport,
        }
    } else if asan_guest {
        Pipeline::AsanGuest
    } else if logging {
        Pipeline::CmpLog(injection)
    } else {
        match injection {
            Some(format) => Pipeline::Injection(format),
            None => Pipeline::Plain,
        }
    }
}

/// Whether a variable of the host environment is handed on to the target.
pub open spec fn inherited(var: (String, String)) -> bool {
    var.0@ != "LD_LIBRARY_PATH"@
}

/// The format of the configured injections file, if one is configured and
/// its name tells a format.
pub open spec fn injection_of(options: FuzzerOptions) -> Option<InjectionFormat> {
    match options.injections {
        Some(file) => format_of(lowercase(file@)),
        None => None,
    }
}

/// The pipeline that the configuration asks for on `core_id`.
pub open spec fn configured_pipeline(options: FuzzerOptions, core_id: usize) -> Pipeline {
    pipeline_of(
        options.rerun_input is Some && options.drcov is Some,
        lists_core(options.asan_cores, core_id),
        lists_core(options.asan_guest_cores, core_id),
        lists_core(options.cmplog_cores, core_id),
        injection_of(options),
    )
}

/// Whether the configuration asks for both kinds of memory-error detection
/// on `core_id`.
pub open spec fn conflicting(options: FuzzerOptions, core_id: usize) -> bool {
    lists_core(options.asan_cores, core_id) && lists_core(options.asan_guest_cores, core_id)
}

/// One fuzzing worker.
pub struct Client<'a> {
    options: &'a FuzzerOptions,
}

impl<'a> View for Client<'a> {
    type V = FuzzerOptions;

    /// The configuration that the worker reads.
    closed spec fn view(&self) -> FuzzerOptions {
        *self.options
    }
}

impl Client<'_> {
    /// A worker on the given configuration.
    pub fn new(options: &FuzzerOptions) -> (client: Client<'_>)
        ensures
            client@ == *options,
    {
        Client { options }
    }

    /// The argument vector of the target: the program name, then the
    /// configured arguments. `program` is the name that the host process was
    /// started under, if it has one.
    pub fn args(&self, program: Option<String>) -> (args: Result<Vec<String>, ClientError>)
        ensures
            match program {
                Some(name) => args matches Ok(v) && v@ == seq![name] + self@.args@,
                None => args matches Err(e) && e == ClientError::MissingProgramName,
            },
    {
        let name = match program {
            Some(name) => name,
            None => {
                return Err(ClientError::MissingProgramName);
            },
        };
        let mut args = self.options.args.clone();
        assert(args@ == self.options.args@);
        args.insert(0, name);
        assert(args@ == seq![name] + self.options.args@);
        Ok(args)
    }

    /// The environment of the target: the variables of the host environment,
    /// in their order, without the search path for shared libraries.
    pub fn env(&self, vars: &[(String, String)]) -> (env: Vec<(String, String)>)
        ensures
            env@ == vars@.filter(|var: (String, String)| inherited(var)),
    {
        let dropped = "LD_LIBRARY_PATH".to_owned();
        let mut env: Vec<(String, String)> = Vec::new();
        let mut i: usize = 0;
        proof {
            reveal(Seq::filter);
        }
        while i < vars.len()
            invariant
                i <= vars@.len(),
                dropped@ == "LD_LIBRARY_PATH"@,
                env@ == vars@.take(i as int).filter(|var: (String, String)| inherited(var)),
            decreases vars@.len() - i,
        {
            proof {
                reveal(Seq::filter);
                assert(vars@.take(i + 1).drop_last() == vars@.take(i as int));
            }
            if !(vars[i].0 == dropped) {
                let var = (vars[i].0.clone(), vars[i].1.clone());
                assert(var == vars@[i as int]);
                env.push(var);
            }
            i += 1;
        }
        assert(vars@.take(i as int) == vars@);
        env
    }

    /// Decides what the worker on `core_id` is started with.
    ///
    /// `program` is the name that the host process was started under, `vars`
    /// its environment. A host process without a name cannot start a target;
    /// a configuration with both kinds of memory-error detection on this core
    /// is refused. Otherwise the worker gets its arguments, its environment
    /// and the one pipeline that the configuration asks for.
    pub fn run(&self, program: Option<String>, vars: &[(String, String)], core_id: usize) -> (launch:
        Result<Launch, ClientError>)
        ensures
            program is None ==> (launch matches Err(e) && e == ClientError::MissingProgramName),
            program is Some && conflicting(self@, core_id) ==> (launch matches Err(e) && e
                == ClientError::MultipleAsanModes),
            program matches Some(name) ==> (!conflicting(self@, core_id) ==> (launch matches Ok(
                l,
            ) && l.args@ == seq![name] + self@.args@ && l.env@ == vars@.filter(
                |var: (String, String)| inherited(var),
            ) && l.pipeline == configured_pipeline(self@, core_id))),
    {
        let mut args = match self.args(program) {
            Ok(args) => args,
            Err(e) => {
                return Err(e);
            },
        };
        Harness::edit_args(&mut args);
        let mut env = self.env(vars);
        Harness::edit_env(&mut env);

        let is_asan = self.options.is_asan_core(core_id);
        let is_asan_guest = self.options.is_asan_guest_core(core_id);
        if is_asan && is_asan_guest {
            return Err(ClientError::MultipleAsanModes);
        }
        let injection = match &self.options.injections {
            Some(file) => InjectionFormat::detect(file.as_str()),
            None => None,
        };
        let is_cmplog = self.options.is_cmplog_core(core_id);
        let rerun_drcov = self.options.rerun_input.is_some() && self.options.drcov.is_some();
        let pipeline = Pipeline::select(rerun_drcov, is_asan, is_asan_guest, is_cmplog, injection);
        Ok(Launch { args, env, pipeline })
    }
}

impl Pipeline {
    /// The pipeline for a worker, given what is switched on for it.
    pub fn select(
        rerun_drcov: bool,
        asan: bool,
        asan_guest: bool,
        logging: bool,
        injection: Option<InjectionFormat>,
    ) -> (pipeline: Pipeline)
        ensures
            pipeline == pipeline_of(rerun_drcov, asan, asan_guest, logging, injection),
    {
        if rerun_drcov {
            Pipeline::DrCov
        } else if asan && logging {
            Pipeline::CmpLogAsan(injection)
        } else if asan_guest && logging {
            Pipeline::CmpLogAsanGuest(injection)
        } else if asan {
            match injection {
                Some(format) => Pipeline::AsanInjection(format),
                None => Pipeline::AsanReport,
            }
        } else if asan_guest {
            Pipeline::AsanGuest
        } else if logging {
            Pipeline::CmpLog(injection)
        } else {
            match injection {
                Some(format) => Pipeline::Injection(format),
                None => Pipeline::Plain,
            }
        }
    }
}

} // verus!
