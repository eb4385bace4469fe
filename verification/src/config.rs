//! The declarative configuration model and the command-line inputs.
//!
//! The configuration is loaded once at startup and is immutable afterwards:
//! a default executor source and checkout ref, a default rule-source
//! template, the ordered list of rule names to provision, and a list of
//! per-rule overrides. Paths are carried as plain strings; the caller that
//! touches the file system converts at the edge.
use vstd::prelude::*;
use vstd::string::StringExecFns;

verus! {

/// The two command-line inputs: the configuration file path and the root
/// directory that per-rule checkouts are placed under.
pub struct Cli {
    /// Path to the `toml` configuration file.
    pub config: String,
    /// Where to output artifacts.
    pub output: String,
}

pub ghost struct CliView {
    pub config: Seq<char>,
    pub output: Seq<char>,
}

impl View for Cli {
    type V = CliView;

    open spec fn view(&self) -> CliView {
        CliView { config: self.config@, output: self.output@ }
    }
}

/// The destination directory of one rule's checkout: the output root joined
/// with the rule name by a `/` separator.
pub open spec fn spec_dest_folder(output: Seq<char>, val: Seq<char>) -> Seq<char> {
    output + seq!['/'] + val
}

impl Cli {
    /// Joins the output root and a rule name into that rule's destination
    /// directory.
    pub fn dest_folder(&self, val: &str) -> (r: String)
        ensures
            r@ == spec_dest_folder(self.output@, val@),
    {
        proof {
            reveal_strlit("/");
        }
        let mut path = self.output.clone();
        path.append("/");
        path.append(val);
        path
    }
}

/// The whole declarative configuration.
pub struct AppConfig {
    pub executor: Executor,
    pub rules: Rules,
}

pub ghost struct AppConfigView {
    pub executor: ExecutorView,
    pub rules: RulesView,
}

impl View for AppConfig {
    type V = AppConfigView;

    open spec fn view(&self) -> AppConfigView {
        AppConfigView { executor: self.executor@, rules: self.rules@ }
    }
}

/// The default source location and checkout ref, used for every rule that no
/// override names.
pub struct Executor {
    pub source: String,
    pub git_ref: String,
}

pub ghost struct ExecutorView {
    pub source: Seq<char>,
    pub git_ref: Seq<char>,
}

impl View for Executor {
    type V = ExecutorView;

    open spec fn view(&self) -> ExecutorView {
        ExecutorView { source: self.source@, git_ref: self.git_ref@ }
    }
}

/// A per-rule exception to the defaults: its own checkout ref and its own
/// source variant.
pub struct Override {
    pub rule: String,
    pub version: RuleVersion,
    pub git_ref: String,
}

pub ghost struct OverrideView {
    pub rule: Seq<char>,
    pub version: RuleVersionView,
    pub git_ref: Seq<char>,
}

impl View for Override {
    type V = OverrideView;

    open spec fn view(&self) -> OverrideView {
        OverrideView { rule: self.rule@, version: self.version@, git_ref: self.git_ref@ }
    }
}

/// An override's source variant: either an explicit source string used
/// verbatim as the package identifier, or a full rule-source template of its
/// own.
pub enum RuleVersion {
    Source { git: String },
    Version { source: RuleSource },
}

pub ghost enum RuleVersionView {
    Source { git: Seq<char> },
    Version { source: RuleSourceView },
}

impl View for RuleVersion {
    type V = RuleVersionView;

    open spec fn view(&self) -> RuleVersionView {
        match self {
            RuleVersion::Source { git } => RuleVersionView::Source { git: git@ },
            RuleVersion::Version { source } => RuleVersionView::Version { source: source@ },
        }
    }
}

/// The rule section: the ordered rule names, the default rule-source
/// template, and the per-rule overrides.
pub struct Rules {
    pub rules: Vec<String>,
    pub source: RuleSource,
    pub override_field: Vec<Override>,
}

pub ghost struct RulesView {
    pub rules: Seq<Seq<char>>,
    pub source: RuleSourceView,
    pub override_field: Seq<OverrideView>,
}

impl View for Rules {
    type V = RulesView;

    open spec fn view(&self) -> RulesView {
        RulesView {
            rules: self.rules.deep_view(),
            source: self.source@,
            override_field: Seq::new(
                self.override_field@.len(),
                |i: int| self.override_field@[i]@,
            ),
        }
    }
}

/// A rule-source template: the pieces the package identifier is synthesized
/// from.
pub struct RuleSource {
    pub version: String,
    pub registry: String,
    pub scope: Option<String>,
    pub prefix: String,
}

pub ghost struct RuleSourceView {
    pub version: Seq<char>,
    pub registry: Seq<char>,
    pub scope: Option<Seq<char>>,
    pub prefix: Seq<char>,
}

impl View for RuleSource {
    type V = RuleSourceView;

    open spec fn view(&self) -> RuleSourceView {
        RuleSourceView {
            version: self.version@,
            registry: self.registry@,
            scope: self.scope.deep_view(),
            prefix: self.prefix@,
        }
    }
}

/// The version segment a rule-source template falls back to when the
/// configuration names none.
pub fn default_version() -> (r: String)
    ensures
        r@ == "@latest"@,
{
    String::from_str("@latest")
}

} // verus!
