//! Fan-out planning for the concurrent per-rule workflows.
//!
//! The orchestrator reads the configuration once and derives, for each
//! configured rule name in listed order, everything its independent workflow
//! acts on: the destination directory, the resolved checkout ref, the
//! resolved package identifier, the install command line, and the manifest
//! key and service record its completion inserts. The workflows then run
//! concurrently; which of them complete decides which insertions the shared
//! manifest receives, and nothing here depends on their order.
use vstd::prelude::*;
use vstd::string::StringExecFns;

use crate::config::{AppConfig, AppConfigView, Cli, CliView, spec_dest_folder};
use crate::docker::{ComposeService, ComposeServiceView, spec_service};
use crate::resolve::{Resolution, resolve_rule, spec_resolve};

verus! {

/// Everything one rule's workflow acts on, fixed before the workflow starts.
pub struct RulePlan {
    /// The rule's name.
    pub rule: String,
    /// The destination directory of the rule's checkout.
    pub folder: String,
    /// The ref the checkout is advanced to.
    pub git_ref: String,
    /// The resolved package identifier.
    pub package: String,
    /// The package-manager install command line.
    pub command: String,
    /// The manifest key the rule's service is registered under.
    pub key: String,
    /// The service record registered on completion.
    pub service: ComposeService,
}

pub ghost struct RulePlanView {
    pub rule: Seq<char>,
    pub folder: Seq<char>,
    pub git_ref: Seq<char>,
    pub package: Seq<char>,
    pub command: Seq<char>,
    pub key: Seq<char>,
    pub service: ComposeServiceView,
}

impl View for RulePlan {
    type V = RulePlanView;

    open spec fn view(&self) -> RulePlanView {
        RulePlanView {
            rule: self.rule@,
            folder: self.folder@,
            git_ref: self.git_ref@,
            package: self.package@,
            command: self.command@,
            key: self.key@,
            service: self.service@,
        }
    }
}

/// The install command line: the package manager asked to install the
/// resolved package, writing under the rule's destination directory.
pub open spec fn spec_install_command(folder: Seq<char>, package: Seq<char>) -> Seq<char> {
    "npm install --prefix "@ + folder + " rule@"@ + package
}

/// Synthesizes the install command line for one rule's destination directory
/// and resolved package identifier.
pub fn install_command(folder: &str, package: &str) -> (r: String)
    ensures
        r@ == spec_install_command(folder@, package@),
{
    let mut r = String::from_str("npm install --prefix ");
    r.append(folder);
    r.append(" rule@");
    r.append(package);
    r
}

/// The manifest key of one rule: the template prefix followed by the rule
/// name.
pub open spec fn spec_service_key(prefix: Seq<char>, rule: Seq<char>) -> Seq<char> {
    prefix + rule
}

/// The plan of one rule's workflow, a pure function of the command-line
/// inputs, the configuration, and the rule name.
pub open spec fn spec_plan(cli: CliView, c: AppConfigView, rule: Seq<char>) -> RulePlanView {
    let res = spec_resolve(c, rule);
    let folder = spec_dest_folder(cli.output, rule);
    RulePlanView {
        rule: rule,
        folder: folder,
        git_ref: res.git_ref,
        package: res.package,
        command: spec_install_command(folder, res.package),
        key: spec_service_key(c.rules.source.prefix, rule),
        service: spec_service(folder),
    }
}

/// Plans one rule's workflow.
pub fn plan_rule(cli: &Cli, config: &AppConfig, rule: &String) -> (r: RulePlan)
    ensures
        r@ == spec_plan(cli@, config@, rule@),
{
    let folder = cli.dest_folder(rule.as_str());
    let resolution: Resolution = resolve_rule(config, rule);
    let command = install_command(folder.as_str(), resolution.package.as_str());
    let mut key = config.rules.source.prefix.clone();
    key.append(rule.as_str());
    let service = ComposeService::from((folder.clone(), rule.clone()));
    RulePlan {
        rule: rule.clone(),
        folder: folder,
        git_ref: resolution.git_ref,
        package: resolution.package,
        command: command,
        key: key,
        service: service,
    }
}

/// Plans every configured rule, in listed order: one independent workflow
/// per entry of the rule list, duplicates included.
pub fn plan_rules(cli: &Cli, config: &AppConfig) -> (r: Vec<RulePlan>)
    ensures
        r@.len() == config@.rules.rules.len(),
        forall|i: int|
            0 <= i < r@.len() ==> r@[i]@ == spec_plan(cli@, config@, config@.rules.rules[i]),
{
    let mut r: Vec<RulePlan> = Vec::new();
    let n = config.rules.rules.len();
    let mut i: usize = 0;
    while i < n
        invariant
            0 <= i <= n,
            n == config@.rules.rules.len(),
            n == config.rules.rules@.len(),
            r@.len() == i,
            forall|j: int|
                0 <= j < i ==> r@[j]@ == spec_plan(cli@, config@, config@.rules.rules[j]),
        decreases n - i,
    {
        let plan = plan_rule(cli, config, &config.rules.rules[i]);
        r.push(plan);
        i = i + 1;
    }
    r
}

} // verus!
