//! The deployment manifest: service records keyed by service name.
//!
//! The manifest is created empty, receives exactly one insertion per rule
//! workflow that runs to completion, and is read once at the end for
//! serialization. Insertions from concurrent workflows are serialized by the
//! caller (one writer at a time); the abstract content is the map that the
//! sequence of insertions folds to, later writes to a key shadowing earlier
//! ones.
use vstd::prelude::*;
use vstd::string::StringExecFns;

verus! {

/// How one service is built: its build context directory and the build
/// arguments handed through.
pub struct Build {
    pub context: String,
    pub args: Vec<String>,
}

pub ghost struct BuildView {
    pub context: Seq<char>,
    pub args: Seq<Seq<char>>,
}

impl View for Build {
    type V = BuildView;

    open spec fn view(&self) -> BuildView {
        BuildView { context: self.context@, args: self.args.deep_view() }
    }
}

/// One entry of the manifest: how to build and run one rule's installed
/// package.
pub struct ComposeService {
    pub build: Build,
    pub env_file: Vec<String>,
    pub restart: String,
    pub depends_on: Vec<String>,
}

pub ghost struct ComposeServiceView {
    pub build: BuildView,
    pub env_file: Seq<Seq<char>>,
    pub restart: Seq<char>,
    pub depends_on: Seq<Seq<char>>,
}

impl View for ComposeService {
    type V = ComposeServiceView;

    open spec fn view(&self) -> ComposeServiceView {
        ComposeServiceView {
            build: self.build@,
            env_file: self.env_file.deep_view(),
            restart: self.restart@,
            depends_on: self.depends_on.deep_view(),
        }
    }
}

/// The service record generated for one rule checked out under `context`:
/// that directory as build context, the fixed credential build argument, the
/// generated env file beside the shared one, the fixed restart policy, and
/// the two fixed peer dependencies.
pub open spec fn spec_service(context: Seq<char>) -> ComposeServiceView {
    ComposeServiceView {
        build: BuildView { context: context, args: seq!["GH_TOKEN"@] },
        env_file: seq![context + "/.env"@, ".env"@],
        restart: "always"@,
        depends_on: seq!["redis"@, "arango"@],
    }
}

impl ComposeService {
    /// Builds the service record of one rule from its checkout directory and
    /// its rule name. The record depends on the directory alone; the
    /// caller writes the rule's env file (named in `env_file`) beside the
    /// checkout.
    pub fn from(value: (String, String)) -> (r: Self)
        ensures
            r@ == spec_service(value.0@),
    {
        let ghost ctx = value.0@;
        let (path, _rule) = value;
        let env_path = path.clone().concat("/.env");
        let r = Self {
            build: Build { context: path, args: vec![String::from_str("GH_TOKEN")] },
            env_file: vec![env_path, String::from_str(".env")],
            restart: String::from_str("always"),
            depends_on: vec![String::from_str("redis"), String::from_str("arango")],
        };
        proof {
            assert(r.build.args.deep_view() =~= seq!["GH_TOKEN"@]);
            assert(r.env_file.deep_view() =~= seq![ctx + "/.env"@, ".env"@]);
            assert(r.depends_on.deep_view() =~= seq!["redis"@, "arango"@]);
        }
        r
    }
}

/// The map that a sequence of insertion events folds to: every key that some
/// event carries is present, and holds the value of the last event with that
/// key.
pub open spec fn manifest_after(events: Seq<(Seq<char>, ComposeServiceView)>) -> Map<
    Seq<char>,
    ComposeServiceView,
>
    decreases events.len(),
{
    if events.len() == 0 {
        Map::empty()
    } else {
        manifest_after(events.drop_last()).insert(events.last().0, events.last().1)
    }
}

/// No two events write to the same key.
pub open spec fn distinct_keys(events: Seq<(Seq<char>, ComposeServiceView)>) -> bool {
    forall|i: int, j: int| 0 <= i < j < events.len() ==> events[i].0 != events[j].0
}

/// Some event writes to `k`.
pub open spec fn has_key(events: Seq<(Seq<char>, ComposeServiceView)>, k: Seq<char>) -> bool {
    exists|i: int| 0 <= i < events.len() && events[i].0 == k
}

/// The value of the last event that writes to `k`.
pub open spec fn spec_last_value_for(
    events: Seq<(Seq<char>, ComposeServiceView)>,
    k: Seq<char>,
) -> ComposeServiceView
    decreases events.len(),
{
    if events.len() == 0 {
        arbitrary()
    } else if events.last().0 == k {
        events.last().1
    } else {
        spec_last_value_for(events.drop_last(), k)
    }
}

/// When every completed workflow wrote to a key of its own, the final
/// manifest holds exactly those workflows' entries: each event's key maps to
/// that event's service, and no other key is present.
pub proof fn lemma_manifest_exactly_completed(events: Seq<(Seq<char>, ComposeServiceView)>)
    requires
        distinct_keys(events),
    ensures
        forall|i: int|
            0 <= i < events.len() ==> manifest_after(events).contains_pair(
                events[i].0,
                events[i].1,
            ),
        forall|k: Seq<char>|
            manifest_after(events).dom().contains(k) ==> has_key(events, k),
    decreases events.len(),
{
    if events.len() > 0 {
        let rest = events.drop_last();
        lemma_manifest_exactly_completed(rest);
        assert forall|i: int|
            0 <= i < events.len() implies manifest_after(events).contains_pair(
            events[i].0,
            events[i].1,
        ) by {
            if i < events.len() - 1 {
                assert(rest[i] == events[i]);
                assert(manifest_after(rest).contains_pair(events[i].0, events[i].1));
                assert(events[i].0 != events.last().0);
            }
        }
        assert forall|k: Seq<char>|
            manifest_after(events).dom().contains(k) implies has_key(events, k) by {
            if k == events.last().0 {
                assert(events[events.len() - 1].0 == k);
            } else {
                assert(manifest_after(rest).dom().contains(k));
                assert(has_key(rest, k));
                let i = choose|i: int| 0 <= i < rest.len() && rest[i].0 == k;
                assert(rest[i] == events[i]);
                assert(events[i].0 == k);
            }
        }
    }
}

/// The final manifest does not depend on the order in which independent
/// workflows completed: two completion orders of the same set of writes,
/// each write to a key of its own, fold to the same manifest.
pub proof fn lemma_manifest_order_independent(
    e1: Seq<(Seq<char>, ComposeServiceView)>,
    e2: Seq<(Seq<char>, ComposeServiceView)>,
)
    requires
        distinct_keys(e1),
        distinct_keys(e2),
        forall|p: (Seq<char>, ComposeServiceView)| e1.contains(p) <==> e2.contains(p),
    ensures
        manifest_after(e1) =~= manifest_after(e2),
{
    lemma_manifest_exactly_completed(e1);
    lemma_manifest_exactly_completed(e2);
    let m1 = manifest_after(e1);
    let m2 = manifest_after(e2);
    assert forall|k: Seq<char>| #![trigger m1.dom().contains(k)] m1.dom().contains(k)
        implies m2.dom().contains(k) && m2[k] == m1[k] by {
        assert(has_key(e1, k));
        let i = choose|i: int| 0 <= i < e1.len() && e1[i].0 == k;
        assert(m1.contains_pair(e1[i].0, e1[i].1));
        assert(e1.contains(e1[i]));
        assert(e2.contains(e1[i]));
        let j = choose|j: int| 0 <= j < e2.len() && e2[j] == e1[i];
        assert(m2.contains_pair(e2[j].0, e2[j].1));
    }
    assert forall|k: Seq<char>| #![trigger m2.dom().contains(k)] m2.dom().contains(k)
        implies m1.dom().contains(k) by {
        assert(has_key(e2, k));
        let i = choose|i: int| 0 <= i < e2.len() && e2[i].0 == k;
        assert(m2.contains_pair(e2[i].0, e2[i].1));
        assert(e2.contains(e2[i]));
        assert(e1.contains(e2[i]));
        let j = choose|j: int| 0 <= j < e1.len() && e1[j] == e2[i];
        assert(m1.contains_pair(e1[j].0, e1[j].1));
    }
    assert forall|k: Seq<char>| m1.dom().contains(k) <==> m2.dom().contains(k) by {
        if m1.dom().contains(k) {
            assert(m2.dom().contains(k));
        }
        if m2.dom().contains(k) {
            assert(m1.dom().contains(k));
        }
    }
    assert(m1.dom() =~= m2.dom());
    assert(m1 =~= m2);
}

/// Two workflows that write to the same key leave whichever write completed
/// last: the key is present, and holds the value of the last event that
/// wrote to it. Which write that is depends on scheduling, so a run with
/// duplicate rule names is a hazard, not a guarantee.
pub proof fn lemma_last_write_wins(events: Seq<(Seq<char>, ComposeServiceView)>, k: Seq<char>)
    requires
        has_key(events, k),
    ensures
        manifest_after(events).dom().contains(k),
        manifest_after(events)[k] == spec_last_value_for(events, k),
    decreases events.len(),
{
    let rest = events.drop_last();
    if events.last().0 != k {
        let i = choose|i: int| 0 <= i < events.len() && events[i].0 == k;
        assert(rest[i] == events[i]);
        assert(has_key(rest, k));
        lemma_last_write_wins(rest, k);
    }
}

/// The insertion events a stored pair list stands for.
pub open spec fn spec_pairs(s: Seq<(String, ComposeService)>) -> Seq<
    (Seq<char>, ComposeServiceView),
> {
    Seq::new(s.len(), |i: int| (s[i].0@, s[i].1@))
}

/// The shared deployment manifest under construction. Its abstract value is
/// the map its insertions fold to.
pub struct Compose {
    pub services: Vec<(String, ComposeService)>,
}

impl View for Compose {
    type V = Map<Seq<char>, ComposeServiceView>;

    open spec fn view(&self) -> Map<Seq<char>, ComposeServiceView> {
        manifest_after(spec_pairs(self.services@))
    }
}

impl Default for Compose {
    /// The empty manifest every run starts from.
    fn default() -> (r: Self)
        ensures
            r@ == Map::<Seq<char>, ComposeServiceView>::empty(),
            r.services@.len() == 0,
    {
        Compose { services: Vec::new() }
    }
}

impl Compose {
    /// Records one completed workflow's service under its key. A later
    /// insertion with the same key shadows this one.
    pub fn insert(&mut self, key: String, service: ComposeService)
        ensures
            final(self)@ == old(self)@.insert(key@, service@),
            final(self).services@ == old(self).services@.push((key, service)),
    {
        let ghost k = key@;
        let ghost v = service@;
        let ghost before = self.services@;
        self.services.push((key, service));
        proof {
            assert(spec_pairs(before.push((key, service))).drop_last() =~= spec_pairs(before));
            assert(spec_pairs(before.push((key, service))).last() == (k, v));
        }
    }
}

} // verus!
