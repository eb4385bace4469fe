//! Per-rule override resolution.
//!
//! Evaluated once per rule, before any work is done for it: decide which
//! checkout ref applies and which package identifier the install step gets.
//! Three outcomes and nothing else: no override found (defaults apply), an
//! override with a raw source string (used verbatim), or an override with a
//! rule-source template of its own (full synthesis from that template).
//! Resolution is pure: it reads the configuration and nothing else.
use vstd::prelude::*;
use vstd::string::StringExecFns;

use crate::config::{AppConfig, AppConfigView, Override, OverrideView, RuleSource,
    RuleSourceView, RuleVersion, RuleVersionView};
use crate::node_pkg::{build_name, spec_build_name};

verus! {

/// What one rule resolves to: the ref its checkout is advanced to and the
/// package identifier its install step receives.
pub struct Resolution {
    pub git_ref: String,
    pub package: String,
}

pub ghost struct ResolutionView {
    pub git_ref: Seq<char>,
    pub package: Seq<char>,
}

impl View for Resolution {
    type V = ResolutionView;

    open spec fn view(&self) -> ResolutionView {
        ResolutionView { git_ref: self.git_ref@, package: self.package@ }
    }
}

/// The first override whose rule name equals `rule`, if any.
pub open spec fn spec_find_override(ovs: Seq<OverrideView>, rule: Seq<char>) -> Option<
    OverrideView,
>
    decreases ovs.len(),
{
    if ovs.len() == 0 {
        None
    } else if ovs[0].rule == rule {
        Some(ovs[0])
    } else {
        spec_find_override(ovs.drop_first(), rule)
    }
}

/// The package identifier an override's source variant stands for: a raw
/// source string verbatim, or full synthesis from the override's own
/// template.
pub open spec fn spec_override_package(version: RuleVersionView, rule: Seq<char>) -> Seq<char> {
    match version {
        RuleVersionView::Source { git } => git,
        RuleVersionView::Version { source } => spec_build_name(
            source.scope,
            source.registry,
            rule,
            source.prefix,
            source.version,
        ),
    }
}

/// The resolved `{checkout ref, package identifier}` pair of one rule: from
/// the first matching override where one exists, from the default executor
/// ref and the default rule-source template where none does.
pub open spec fn spec_resolve(c: AppConfigView, rule: Seq<char>) -> ResolutionView {
    match spec_find_override(c.rules.override_field, rule) {
        None => ResolutionView {
            git_ref: c.executor.git_ref,
            package: spec_build_name(
                c.rules.source.scope,
                c.rules.source.registry,
                rule,
                c.rules.source.prefix,
                c.rules.source.version,
            ),
        },
        Some(o) => ResolutionView {
            git_ref: o.git_ref,
            package: spec_override_package(o.version, rule),
        },
    }
}

/// Override resolution is a pure function of the rule name and the
/// configuration: any two resolved pairs for the same inputs are the same
/// pair.
pub proof fn lemma_resolve_deterministic(
    c: AppConfigView,
    rule: Seq<char>,
    r1: ResolutionView,
    r2: ResolutionView,
)
    requires
        r1 == spec_resolve(c, rule),
        r2 == spec_resolve(c, rule),
    ensures
        r1 == r2,
{
}

proof fn lemma_find_override_none(ovs: Seq<OverrideView>, rule: Seq<char>)
    requires
        forall|i: int| 0 <= i < ovs.len() ==> ovs[i].rule != rule,
    ensures
        spec_find_override(ovs, rule) is None,
    decreases ovs.len(),
{
    if ovs.len() > 0 {
        lemma_find_override_none(ovs.drop_first(), rule);
    }
}

/// A rule that no override names resolves to the defaults: the default
/// executor's checkout ref, and the package identifier synthesized from the
/// default rule-source template.
pub proof fn lemma_no_override_uses_defaults(c: AppConfigView, rule: Seq<char>)
    requires
        forall|i: int| 0 <= i < c.rules.override_field.len() ==> c.rules.override_field[i].rule
            != rule,
    ensures
        spec_resolve(c, rule).git_ref == c.executor.git_ref,
        spec_resolve(c, rule).package == spec_build_name(
            c.rules.source.scope,
            c.rules.source.registry,
            rule,
            c.rules.source.prefix,
            c.rules.source.version,
        ),
{
    lemma_find_override_none(c.rules.override_field, rule);
}

/// A rule whose matching override carries a raw source string resolves to
/// that string verbatim, and to the override's own checkout ref: no default
/// template value reaches the result.
pub proof fn lemma_raw_source_verbatim(
    c: AppConfigView,
    rule: Seq<char>,
    o: OverrideView,
    git: Seq<char>,
)
    requires
        spec_find_override(c.rules.override_field, rule) == Some(o),
        o.version == (RuleVersionView::Source { git }),
    ensures
        spec_resolve(c, rule).package == git,
        spec_resolve(c, rule).git_ref == o.git_ref,
{
}

/// A rule whose matching override carries its own rule-source template
/// resolves through that template's scope, registry, prefix and version,
/// whatever the defaults say, and to the override's own checkout ref.
pub proof fn lemma_versioned_source_uses_own_template(
    c: AppConfigView,
    rule: Seq<char>,
    o: OverrideView,
    source: RuleSourceView,
)
    requires
        spec_find_override(c.rules.override_field, rule) == Some(o),
        o.version == (RuleVersionView::Version { source }),
    ensures
        spec_resolve(c, rule).package == spec_build_name(
            source.scope,
            source.registry,
            rule,
            source.prefix,
            source.version,
        ),
        spec_resolve(c, rule).git_ref == o.git_ref,
{
}

/// Synthesizes a package identifier from one rule-source template.
fn build_from_source(source: &RuleSource, rule: &str) -> (r: String)
    ensures
        r@ == spec_build_name(source@.scope, source@.registry, rule@, source@.prefix,
            source@.version),
{
    let scope: Option<&str> = match &source.scope {
        Some(s) => Some(s.as_str()),
        None => None,
    };
    build_name(scope, source.registry.as_str(), rule, source.prefix.as_str(),
        source.version.as_str())
}

/// Finds the first override whose rule name equals `rule`.
fn find_override<'a>(ovs: &'a Vec<Override>, rule: &String) -> (r: Option<&'a Override>)
    ensures
        match r {
            None => spec_find_override(Seq::new(ovs@.len(), |i: int| ovs@[i]@), rule@) is None,
            Some(o) => spec_find_override(Seq::new(ovs@.len(), |i: int| ovs@[i]@), rule@)
                == Some(o@),
        },
{
    let ghost all = Seq::new(ovs@.len(), |i: int| ovs@[i]@);
    proof {
        assert(all.skip(0) =~= all);
    }
    let mut i: usize = 0;
    while i < ovs.len()
        invariant
            0 <= i <= ovs.len(),
            all == Seq::new(ovs@.len(), |j: int| ovs@[j]@),
            spec_find_override(all, rule@) == spec_find_override(all.skip(i as int), rule@),
        decreases ovs.len() - i,
    {
        if ovs[i].rule == *rule {
            proof {
                assert(all.skip(i as int)[0] == all[i as int]);
            }
            return Some(&ovs[i]);
        }
        proof {
            assert(all.skip(i as int).drop_first() =~= all.skip(i as int + 1));
        }
        i = i + 1;
    }
    proof {
        assert(all.skip(i as int).len() == 0);
    }
    None
}

/// Resolves one rule against the configuration: the first matching
/// override's ref and source variant where an override exists, the default
/// executor ref and default template where none does. Pure and total; two
/// calls on equal inputs return equal pairs.
pub fn resolve_rule(config: &AppConfig, rule: &String) -> (r: Resolution)
    ensures
        r@ == spec_resolve(config@, rule@),
{
    match find_override(&config.rules.override_field, rule) {
        None => Resolution {
            git_ref: config.executor.git_ref.clone(),
            package: build_from_source(&config.rules.source, rule.as_str()),
        },
        Some(o) => Resolution {
            git_ref: o.git_ref.clone(),
            package: match &o.version {
                RuleVersion::Source { git } => git.clone(),
                RuleVersion::Version { source } => build_from_source(source, rule.as_str()),
            },
        },
    }
}

} // verus!
