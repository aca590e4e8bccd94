//! Which binding generators a `generate` command runs.

use vstd::prelude::*;
use vstd::string::*;

use crate::cli_config::{processes, CliError, Config, Target};
use crate::paths::{join_path, path_join};

verus! {

/// What `generate` is asked for: one target, or every configured one.
#[derive(Clone, Copy, Debug, PartialEq, Eq, Structural)]
pub enum GenerateTarget {
    Swift,
    Kotlin,
    KotlinMultiplatform,
    Java,
    Header,
    Typescript,
    Dart,
    Python,
    CSharp,
    All,
}

/// The options of `generate`.
pub struct GenerateOptions {
    pub target: GenerateTarget,
    pub output: Option<String>,
    pub experimental: bool,
}

/// Every target, in the order `generate` runs them.
pub open spec fn all_targets() -> Seq<Target> {
    seq![
        Target::Swift,
        Target::Kotlin,
        Target::KotlinMultiplatform,
        Target::Java,
        Target::Header,
        Target::TypeScript,
        Target::Dart,
        Target::Python,
        Target::CSharp,
    ]
}

/// The targets of `ts` the configuration processes, in order.
pub open spec fn processed_targets(c: Config, ts: Seq<Target>, experimental: bool) -> Seq<Target>
    decreases ts.len(),
{
    if ts.len() == 0 {
        Seq::empty()
    } else {
        let rest = processed_targets(c, ts.drop_last(), experimental);
        if processes(c, ts.last(), experimental) {
            rest.push(ts.last())
        } else {
            rest
        }
    }
}

/// The generators a request runs: the one target asked for, or, for
/// `All`, every target the configuration processes, in the fixed order.
pub open spec fn generators_for(c: Config, target: GenerateTarget, experimental: bool) -> Seq<Target> {
    match target {
        GenerateTarget::Swift => seq![Target::Swift],
        GenerateTarget::Kotlin => seq![Target::Kotlin],
        GenerateTarget::KotlinMultiplatform => seq![Target::KotlinMultiplatform],
        GenerateTarget::Java => seq![Target::Java],
        GenerateTarget::Header => seq![Target::Header],
        GenerateTarget::Typescript => seq![Target::TypeScript],
        GenerateTarget::Dart => seq![Target::Dart],
        GenerateTarget::Python => seq![Target::Python],
        GenerateTarget::CSharp => seq![Target::CSharp],
        GenerateTarget::All => processed_targets(c, all_targets(), experimental),
    }
}

/// The generators `generate` runs for `options`, in order; see
/// [`generators_for`]. The caller runs each of them, stopping at the first
/// that fails.
pub fn run_generate_with_output(config: &Config, options: &GenerateOptions) -> (res: Vec<Target>)
    ensures
        res@ == generators_for(*config, options.target, options.experimental),
{
    match options.target {
        GenerateTarget::Swift => vec![Target::Swift],
        GenerateTarget::Kotlin => vec![Target::Kotlin],
        GenerateTarget::KotlinMultiplatform => vec![Target::KotlinMultiplatform],
        GenerateTarget::Java => vec![Target::Java],
        GenerateTarget::Header => vec![Target::Header],
        GenerateTarget::Typescript => vec![Target::TypeScript],
        GenerateTarget::Dart => vec![Target::Dart],
        GenerateTarget::Python => vec![Target::Python],
        GenerateTarget::CSharp => vec![Target::CSharp],
        GenerateTarget::All => {
            let order = vec![
                Target::Swift,
                Target::Kotlin,
                Target::KotlinMultiplatform,
                Target::Java,
                Target::Header,
                Target::TypeScript,
                Target::Dart,
                Target::Python,
                Target::CSharp,
            ];
            assert(order@ =~= all_targets());
            let mut res: Vec<Target> = Vec::new();
            let mut i: usize = 0;
            while i < order.len()
                invariant
                    order@ == all_targets(),
                    i <= order@.len(),
                    res@ == processed_targets(*config, order@.take(i as int), options.experimental),
                decreases order.len() - i,
            {
                let t = order[i];
                assert(order@.take(i + 1).drop_last() =~= order@.take(i as int));
                if config.should_process(t, options.experimental) {
                    res.push(t);
                }
                i = i + 1;
            }
            assert(order@.take(9) =~= order@);
            res
        },
    }
}

/// What `generate` does next, running its generators in order.
pub enum GenerateAction {
    /// Runs the generator of this target.
    Run(Target),
    /// Stops with this outcome.
    Finish(Result<(), CliError>),
}

/// The next step of `generate` once `completed` generators of `generators`
/// have run and `last` is the outcome of the last one (`Ok` before the
/// first): the first failure ends the command with its error, and the next
/// generator runs while there is one.
pub fn next_generate_action(generators: &Vec<Target>, completed: usize, last: Result<(), CliError>) -> (res: GenerateAction)
    requires
        completed <= generators@.len(),
    ensures
        last is Err ==> res == GenerateAction::Finish(last),
        last is Ok && completed < generators@.len() ==> res == GenerateAction::Run(generators@[completed as int]),
        last is Ok && completed == generators@.len() ==> res == GenerateAction::Finish(Ok(())),
{
    match last {
        Err(e) => GenerateAction::Finish(Err(e)),
        Ok(()) => {
            if completed < generators.len() {
                GenerateAction::Run(generators[completed])
            } else {
                GenerateAction::Finish(Ok(()))
            }
        },
    }
}


/// The output directory of a generator: the override when one is given,
/// the configured directory otherwise.
pub open spec fn chosen_output(output_override: Option<&str>, configured: Seq<char>) -> Seq<char> {
    match output_override {
        Some(o) => o@,
        None => configured,
    }
}

fn choose_output(output_override: Option<&str>, configured: &str) -> (res: String)
    ensures
        res@ == chosen_output(output_override, configured@),
{
    match output_override {
        Some(o) => String::from_str(o),
        None => String::from_str(configured),
    }
}

/// The Kotlin Multiplatform generator.
pub struct KMPGenerator;

impl KMPGenerator {
    /// Where the project is written; refused while the target is disabled.
    pub fn output_directory(config: &Config, output_override: Option<&str>) -> (res: Result<String, CliError>)
        ensures
            !config.targets.kotlin_multiplatform.enabled ==> (res matches Err(CliError::CommandFailed { command, status })
                && command@ == "targets.kotlin_multiplatform.enabled = false"@ && status is None),
            config.targets.kotlin_multiplatform.enabled ==> (res matches Ok(dir) && dir@ == chosen_output(
                output_override,
                config.targets.kotlin_multiplatform.output@,
            )),
    {
        if !config.is_kotlin_multiplatform_enabled() {
            return Err(CliError::refused(String::from_str("targets.kotlin_multiplatform.enabled = false")));
        }
        Ok(choose_output(output_override, config.targets.kotlin_multiplatform.output.as_str()))
    }

    /// Where a generated file goes: its relative path under the output
    /// directory.
    pub fn output_file_path(output_directory: &str, relative_path: &str) -> (res: String)
        ensures
            res@ == path_join(output_directory@, relative_path@),
    {
        join_path(output_directory, relative_path)
    }
}

/// The C# generator.
pub struct CSharpGenerator;

impl CSharpGenerator {
    /// Where the sources are written; refused while the target is disabled.
    pub fn output_directory(config: &Config, output_override: Option<&str>) -> (res: Result<String, CliError>)
        ensures
            !config.targets.csharp.enabled ==> (res matches Err(CliError::CommandFailed { command, status })
                && command@ == "targets.csharp.enabled = false"@ && status is None),
            config.targets.csharp.enabled ==> (res matches Ok(dir) && dir@ == chosen_output(output_override, config.targets.csharp.output@)),
    {
        if !config.is_csharp_enabled() {
            return Err(CliError::refused(String::from_str("targets.csharp.enabled = false")));
        }
        Ok(choose_output(output_override, config.targets.csharp.output.as_str()))
    }
}

/// The TypeScript generator.
pub struct TypeScriptGenerator;

impl TypeScriptGenerator {
    /// Where the bindings are written; refused while the WebAssembly target
    /// is disabled.
    pub fn output_directory(wasm_enabled: bool, output_override: Option<&str>, configured: &str) -> (res: Result<String, CliError>)
        ensures
            !wasm_enabled ==> (res matches Err(CliError::CommandFailed { command, status }) && command@ == "targets.wasm.enabled = false"@
                && status is None),
            wasm_enabled ==> (res matches Ok(dir) && dir@ == chosen_output(output_override, configured@)),
    {
        if !wasm_enabled {
            return Err(CliError::refused(String::from_str("targets.wasm.enabled = false")));
        }
        Ok(choose_output(output_override, configured))
    }
}

} // verus!
