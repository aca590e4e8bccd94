//! The project configuration the command-line tool reads, the targets it
//! can generate for, and the errors its commands report.

use vstd::prelude::*;
use vstd::string::*;

use crate::naming::str_eq;

verus! {

/// A platform the tool generates bindings for.
#[derive(Clone, Copy, Debug, PartialEq, Eq, Structural)]
pub enum Target {
    Swift,
    Kotlin,
    KotlinMultiplatform,
    Java,
    Header,
    TypeScript,
    Dart,
    Python,
    CSharp,
}

/// The configuration name of a target, as the `[targets.*]` tables and the
/// `experimental` list spell it.
pub open spec fn target_name(t: Target) -> Seq<char> {
    match t {
        Target::Swift => "swift"@,
        Target::Kotlin => "kotlin"@,
        Target::KotlinMultiplatform => "kotlin_multiplatform"@,
        Target::Java => "java"@,
        Target::Header => "header"@,
        Target::TypeScript => "typescript"@,
        Target::Dart => "dart"@,
        Target::Python => "python"@,
        Target::CSharp => "csharp"@,
    }
}

/// Whether a target only runs once the user opts in to it.
pub open spec fn target_is_experimental(t: Target) -> bool {
    t == Target::KotlinMultiplatform
}

impl Target {
    /// The configuration name; see [`target_name`].
    pub fn name(&self) -> (res: &'static str)
        ensures
            res@ == target_name(*self),
    {
        match self {
            Target::Swift => "swift",
            Target::Kotlin => "kotlin",
            Target::KotlinMultiplatform => "kotlin_multiplatform",
            Target::Java => "java",
            Target::Header => "header",
            Target::TypeScript => "typescript",
            Target::Dart => "dart",
            Target::Python => "python",
            Target::CSharp => "csharp",
        }
    }

    /// Whether the target needs an opt-in; see [`target_is_experimental`].
    pub fn is_experimental(&self) -> (res: bool)
        ensures
            res == target_is_experimental(*self),
    {
        match self {
            Target::KotlinMultiplatform => true,
            _ => false,
        }
    }
}

/// The `[package]` table.
pub struct PackageConfig {
    pub name: String,
    pub crate_name: Option<String>,
    pub version: Option<String>,
    pub description: Option<String>,
    pub license: Option<String>,
    pub repository: Option<String>,
}

/// The `[targets.kotlin_multiplatform]` table.
pub struct KotlinMultiplatformConfig {
    pub enabled: bool,
    pub output: String,
    pub module_name: Option<String>,
}

/// The `[targets.csharp]` table.
pub struct CSharpConfig {
    pub enabled: bool,
    pub output: String,
    pub runtime_identifiers: Option<Vec<crate::pack_rules::CSharpRuntimeIdentifier>>,
}

/// The `[targets]` tables: which targets are enabled, and the settings the
/// packaging commands read.
pub struct TargetsConfig {
    pub swift: bool,
    pub kotlin: bool,
    pub java: bool,
    pub header: bool,
    pub typescript: bool,
    pub dart: bool,
    pub python: bool,
    pub kotlin_multiplatform: KotlinMultiplatformConfig,
    pub csharp: CSharpConfig,
    pub android_kotlin_library_name: Option<String>,
}

/// A project's configuration.
pub struct Config {
    pub experimental: Vec<String>,
    pub package: PackageConfig,
    pub targets: TargetsConfig,
}

/// Whether a target is enabled in the configuration.
pub open spec fn target_enabled(c: Config, t: Target) -> bool {
    match t {
        Target::Swift => c.targets.swift,
        Target::Kotlin => c.targets.kotlin,
        Target::KotlinMultiplatform => c.targets.kotlin_multiplatform.enabled,
        Target::Java => c.targets.java,
        Target::Header => c.targets.header,
        Target::TypeScript => c.targets.typescript,
        Target::Dart => c.targets.dart,
        Target::Python => c.targets.python,
        Target::CSharp => c.targets.csharp.enabled,
    }
}

/// Whether the `experimental` list names the target.
pub open spec fn listed_experimental(c: Config, t: Target) -> bool {
    exists|i: int| 0 <= i < c.experimental@.len() && c.experimental@[i]@ == target_name(t)
}

/// A target is processed when it is enabled and, if experimental, opted
/// in to by the command-line flag or by the configuration's list.
pub open spec fn processes(c: Config, t: Target, experimental_flag: bool) -> bool {
    target_enabled(c, t) && (!target_is_experimental(t) || experimental_flag || listed_experimental(c, t))
}

impl Config {
    /// Whether a target is enabled; see [`target_enabled`].
    pub fn is_enabled(&self, target: Target) -> (res: bool)
        ensures
            res == target_enabled(*self, target),
    {
        match target {
            Target::Swift => self.targets.swift,
            Target::Kotlin => self.targets.kotlin,
            Target::KotlinMultiplatform => self.targets.kotlin_multiplatform.enabled,
            Target::Java => self.targets.java,
            Target::Header => self.targets.header,
            Target::TypeScript => self.targets.typescript,
            Target::Dart => self.targets.dart,
            Target::Python => self.targets.python,
            Target::CSharp => self.targets.csharp.enabled,
        }
    }

    /// Whether the C# target is enabled.
    pub fn is_csharp_enabled(&self) -> (res: bool)
        ensures
            res == self.targets.csharp.enabled,
    {
        self.targets.csharp.enabled
    }

    /// Whether the Kotlin Multiplatform target is enabled.
    pub fn is_kotlin_multiplatform_enabled(&self) -> (res: bool)
        ensures
            res == self.targets.kotlin_multiplatform.enabled,
    {
        self.targets.kotlin_multiplatform.enabled
    }

    /// Whether the `experimental` list names the target.
    pub fn lists_experimental(&self, target: Target) -> (res: bool)
        ensures
            res == listed_experimental(*self, target),
    {
        let name = target.name();
        let mut i: usize = 0;
        while i < self.experimental.len()
            invariant
                i <= self.experimental@.len(),
                name@ == target_name(target),
                forall|j: int| 0 <= j < i ==> self.experimental@[j]@ != target_name(target),
            decreases self.experimental.len() - i,
        {
            if str_eq(self.experimental[i].as_str(), name) {
                return true;
            }
            i = i + 1;
        }
        false
    }

    /// Whether a command processes the target; see [`processes`].
    pub fn should_process(&self, target: Target, experimental_flag: bool) -> (res: bool)
        ensures
            res == processes(*self, target, experimental_flag),
    {
        if !self.is_enabled(target) {
            return false;
        }
        if !target.is_experimental() {
            return true;
        }
        experimental_flag || self.lists_experimental(target)
    }

    /// The license of the package, if it names one.
    pub fn package_license(&self) -> (res: Option<String>)
        ensures
            res == self.package.license,
    {
        match &self.package.license {
            Some(l) => Some(l.clone()),
            None => None,
        }
    }

    /// The repository of the package, if it names one.
    pub fn package_repository(&self) -> (res: Option<String>)
        ensures
            res == self.package.repository,
    {
        match &self.package.repository {
            Some(r) => Some(r.clone()),
            None => None,
        }
    }
}

/// An error a command reports.
pub enum CliError {
    /// A command could not run or refused to; `command` says which or why.
    CommandFailed { command: String, status: Option<i32> },
}

impl CliError {
    /// A refusal with the given text and no exit status.
    pub fn refused(command: String) -> (res: Self)
        ensures
            res == (CliError::CommandFailed { command, status: None }),
    {
        CliError::CommandFailed { command, status: None }
    }
}

} // verus!
