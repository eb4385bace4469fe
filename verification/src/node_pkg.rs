//! Canonical package identifiers for the package-manager install step.
use vstd::prelude::*;
use vstd::string::StringExecFns;

verus! {

/// The optional scope segment of a package identifier: `"{scope}/"` when a
/// non-empty scope is present, nothing otherwise — a missing or empty scope
/// leaves no separator behind.
pub open spec fn spec_scope_segment(scope: Option<Seq<char>>) -> Seq<char> {
    match scope {
        Some(s) => if s.len() > 0 {
            s + seq!['/']
        } else {
            Seq::empty()
        },
        None => Seq::empty(),
    }
}

/// The canonical package identifier:
/// `"{registry}:{scope/}{prefix}{rule}{version}"`, with the scope segment
/// omitted when no scope, or an empty one, is given.
pub open spec fn spec_build_name(
    scope: Option<Seq<char>>,
    registry: Seq<char>,
    rule: Seq<char>,
    prefix: Seq<char>,
    version: Seq<char>,
) -> Seq<char> {
    registry + seq![':'] + spec_scope_segment(scope) + prefix + rule + version
}

/// Shape of every synthesized package identifier: it starts with
/// `"{registry}:"`; `"{scope}/"` follows the colon immediately exactly when
/// a non-empty scope is given; with no scope, or an empty one, the
/// identifier is exactly `"{registry}:{prefix}{rule}{version}"`, with no
/// separator artifacts left behind.
pub proof fn lemma_build_name_shape(
    scope: Option<Seq<char>>,
    registry: Seq<char>,
    rule: Seq<char>,
    prefix: Seq<char>,
    version: Seq<char>,
)
    ensures
        spec_build_name(scope, registry, rule, prefix, version).subrange(
            0,
            registry.len() as int + 1,
        ) == registry + seq![':'],
        scope matches Some(s) ==> s.len() > 0 ==> spec_build_name(
            scope,
            registry,
            rule,
            prefix,
            version,
        ).subrange(registry.len() as int + 1, registry.len() + 1 + s.len() + 1 as int) == s
            + seq!['/'],
        scope is None ==> spec_build_name(scope, registry, rule, prefix, version) == registry
            + seq![':'] + prefix + rule + version,
        scope matches Some(s) ==> s.len() == 0 ==> spec_build_name(
            scope,
            registry,
            rule,
            prefix,
            version,
        ) == registry + seq![':'] + prefix + rule + version,
{
    let r = spec_build_name(scope, registry, rule, prefix, version);
    assert(r.subrange(0, registry.len() as int + 1) =~= registry + seq![':']);
    match scope {
        Some(s) => {
            if s.len() > 0 {
                assert(r.subrange(registry.len() as int + 1, registry.len() + 1 + s.len() + 1
                    as int) =~= s + seq!['/']);
            } else {
                assert(r =~= registry + seq![':'] + prefix + rule + version);
            }
        },
        None => {
            assert(r =~= registry + seq![':'] + prefix + rule + version);
        },
    }
}

/// Synthesizes the package identifier handed to the package-manager install
/// step. Purely textual: any inputs produce exactly the string
/// `spec_build_name` describes.
pub fn build_name(
    scope: Option<&str>,
    registry: &str,
    rule: &str,
    prefix: &str,
    version: &str,
) -> (r: String)
    ensures
        r@ == spec_build_name(scope.deep_view(), registry@, rule@, prefix@, version@),
{
    proof {
        reveal_strlit(":");
        reveal_strlit("/");
    }
    let mut r = String::from_str(registry);
    r.append(":");
    match scope {
        Some(s) => {
            if !s.is_empty() {
                r.append(s);
                r.append("/");
            }
        },
        None => {},
    }
    r.append(prefix);
    r.append(rule);
    r.append(version);
    r
}

} // verus!
