//! OCF resource agents: the records describing them, where their metadata is looked up, and
//! the catalogue of agents grouped by provider and ordered by name.

use vstd::prelude::*;
use crate::nodes::AppError;
use crate::text::push_str;

verus! {

broadcast use vstd::seq_lib::group_to_multiset_ensures;

/// An agent found under the OCF root: its provider and its name.
#[derive(Debug, Clone)]
pub struct AgentSummary {
    pub provider: String,
    pub name: String,
}

/// A text with its language.
#[derive(Debug, Clone, Default)]
pub struct LocalizedTextDto {
    pub lang: String,
    pub text: String,
}

/// The type and default value of a parameter.
#[derive(Debug, Clone, Default)]
pub struct ContentDto {
    pub type_: String,
    pub default: String,
}

/// One parameter of an agent.
#[derive(Debug, Clone)]
pub struct ParameterDto {
    pub name: String,
    pub unique: String,
    pub required: String,
    pub longdesc: LocalizedTextDto,
    pub shortdesc: LocalizedTextDto,
    pub content: ContentDto,
}

/// The parameters of an agent.
#[derive(Debug, Clone, Default)]
pub struct ParametersDto {
    pub parameters: Vec<ParameterDto>,
}

/// One action of an agent.
#[derive(Debug, Clone)]
pub struct ActionDto {
    pub name: String,
    pub timeout: String,
    pub interval: String,
    pub depth: String,
}

/// The actions of an agent.
#[derive(Debug, Clone, Default)]
pub struct ActionsDto {
    pub actions: Vec<ActionDto>,
}

/// The metadata an agent describes itself with.
#[derive(Debug, Clone)]
pub struct ResourceAgentDto {
    pub name: String,
    pub version_attr: Option<String>,
    pub version_elem: Option<String>,
    pub longdesc: LocalizedTextDto,
    pub shortdesc: LocalizedTextDto,
    pub parameters: ParametersDto,
    pub actions: ActionsDto,
}

/// An agent of the catalogue, with its descriptions as plain text.
#[derive(Debug, Clone)]
pub struct ResourceAgent {
    pub name: String,
    pub version: String,
    pub shortdesc: String,
    pub longdesc: String,
    pub parameters: Vec<ParameterDto>,
    pub actions: Vec<ActionDto>,
}

/// The agents of one provider.
#[derive(Debug, Clone)]
pub struct ProviderAgents {
    pub provider: String,
    pub agents: Vec<ResourceAgent>,
}

/// All resource agents grouped by provider; each provider appears once.
#[derive(Debug, Clone)]
pub struct ResourceAgentsByProvider {
    pub providers: Vec<ProviderAgents>,
}

/// The summaries of the discovered `(provider, name)` pairs, in discovery order.
pub fn agent_summaries(discovered: Vec<(String, String)>) -> (r: Vec<AgentSummary>)
    ensures
        r.len() == discovered.len(),
        forall|i: int|
            #![trigger r@[i]]
            0 <= i < r.len() ==> r@[i].provider == discovered@[i].0 && r@[i].name
                == discovered@[i].1,
{
    let ghost all = discovered@;
    let mut rest = discovered;
    let mut out: Vec<AgentSummary> = Vec::new();
    while rest.len() > 0
        invariant
            all == discovered@,
            out.len() + rest.len() == all.len(),
            rest@ == all.skip(out.len() as int),
            forall|i: int|
                #![trigger out@[i]]
                0 <= i < out.len() ==> out@[i].provider == all[i].0 && out@[i].name == all[i].1,
        decreases rest.len(),
    {
        let e = rest.remove(0);
        assert(e == all[out.len() as int]);
        out.push(AgentSummary { provider: e.0, name: e.1 });
        assert(rest@ =~= all.skip(out.len() as int));
    }
    out
}

/// The OCF root: the one configured, else `/usr/lib/ocf`.
pub fn ocf_root(configured: Option<String>) -> (r: String)
    ensures
        r@ == match configured {
            Some(c) => c@,
            None => "/usr/lib/ocf"@,
        },
{
    match configured {
        Some(c) => c,
        None => "/usr/lib/ocf".to_owned(),
    }
}

/// Where an agent's executable lies: `<root>/resource.d/<provider>/<agent>`.
pub fn agent_path(root: &str, provider: &str, agent: &str) -> (p: String)
    ensures
        p@ == root@ + "/resource.d/"@ + provider@ + "/"@ + agent@,
{
    let mut p = root.to_owned();
    push_str(&mut p, "/resource.d/");
    push_str(&mut p, provider);
    push_str(&mut p, "/");
    push_str(&mut p, agent);
    assert(p@ =~= root@ + "/resource.d/"@ + provider@ + "/"@ + agent@);
    p
}

/// The error for an agent whose metadata could not be had.
pub fn agent_not_found(provider: &str, agent: &str, error: &str) -> (e: AppError)
    ensures
        e matches AppError::NotFound(m) && m@ == "Agent "@ + provider@ + "/"@ + agent@
            + " not found or metadata fetch failed: "@ + error@,
{
    let mut m = "Agent ".to_owned();
    push_str(&mut m, provider);
    push_str(&mut m, "/");
    push_str(&mut m, agent);
    push_str(&mut m, " not found or metadata fetch failed: ");
    push_str(&mut m, error);
    AppError::NotFound(m)
}

// ---------------------------------------------------------------------------
// Ordering agents by name
// ---------------------------------------------------------------------------

/// `a` comes before `b`, or equals it, in the order of their characters.
pub open spec fn name_le(a: Seq<char>, b: Seq<char>) -> bool
    decreases a.len(),
{
    if a.len() == 0 {
        true
    } else if b.len() == 0 {
        false
    } else if a[0] != b[0] {
        a[0] < b[0]
    } else {
        name_le(a.drop_first(), b.drop_first())
    }
}

/// Any two names are ordered one way or the other.
pub proof fn lemma_name_le_total(a: Seq<char>, b: Seq<char>)
    ensures
        name_le(a, b) || name_le(b, a),
    decreases a.len(),
{
    if a.len() > 0 && b.len() > 0 && a[0] == b[0] {
        lemma_name_le_total(a.drop_first(), b.drop_first());
    }
}

/// The order of names is transitive.
pub proof fn lemma_name_le_trans(a: Seq<char>, b: Seq<char>, c: Seq<char>)
    requires
        name_le(a, b),
        name_le(b, c),
    ensures
        name_le(a, c),
    decreases a.len(),
{
    if a.len() > 0 && b.len() > 0 && c.len() > 0 && a[0] == b[0] && b[0] == c[0] {
        lemma_name_le_trans(a.drop_first(), b.drop_first(), c.drop_first());
    }
}

/// Two names each ordered before the other are the same name.
pub proof fn lemma_name_le_antisymmetric(a: Seq<char>, b: Seq<char>)
    requires
        name_le(a, b),
        name_le(b, a),
    ensures
        a == b,
    decreases a.len(),
{
    if a.len() > 0 && b.len() > 0 && a[0] == b[0] {
        lemma_name_le_antisymmetric(a.drop_first(), b.drop_first());
        assert(a =~= seq![a[0]] + a.drop_first());
        assert(b =~= seq![b[0]] + b.drop_first());
    } else if a.len() == 0 && b.len() == 0 {
        assert(a =~= b);
    }
}

pub(crate) fn name_le_exec(a: &[char], b: &[char]) -> (r: bool)
    ensures
        r == name_le(a@, b@),
{
    let mut i: usize = 0;
    assert(a@.skip(0) =~= a@);
    assert(b@.skip(0) =~= b@);
    while i < a.len() && i < b.len() && a[i] == b[i]
        invariant
            i <= a.len(),
            i <= b.len(),
            name_le(a@, b@) == name_le(a@.skip(i as int), b@.skip(i as int)),
        decreases a.len() - i,
    {
        assert(a@.skip(i as int).drop_first() =~= a@.skip(i + 1));
        assert(b@.skip(i as int).drop_first() =~= b@.skip(i + 1));
        i = i + 1;
    }
    if i == a.len() {
        true
    } else if i == b.len() {
        false
    } else {
        a[i] < b[i]
    }
}

/// The agents are in order of their names.
pub open spec fn sorted_by_name(s: Seq<ResourceAgent>) -> bool {
    forall|i: int, j: int| 0 <= i < j < s.len() ==> name_le(#[trigger] s[i].name@, #[trigger] s[j].name@)
}

/// Orders agents by name; agents with equal names keep their order.
pub fn sort_agents_by_name(agents: Vec<ResourceAgent>) -> (r: Vec<ResourceAgent>)
    ensures
        r@.to_multiset() == agents@.to_multiset(),
        sorted_by_name(r@),
{
    let mut rest = agents;
    let ghost all = rest@;
    let mut sorted: Vec<ResourceAgent> = Vec::new();
    let ghost mut done: int = 0;
    assert(all.take(0) =~= Seq::<ResourceAgent>::empty());
    while rest.len() > 0
        invariant
            0 <= done,
            done + rest.len() == all.len(),
            rest@ == all.skip(done as int),
            sorted@.to_multiset() == all.take(done as int).to_multiset(),
            sorted_by_name(sorted@),
        decreases rest.len(),
    {
        let x = rest.remove(0);
        let xn: Vec<char> = crate::text::chars_of(x.name.as_str());
        let mut p: usize = 0;
        while p < sorted.len() && name_le_exec(crate::text::chars_of(sorted[p].name.as_str()).as_slice(), xn.as_slice())
            invariant
                p <= sorted.len(),
                xn@ == x.name@,
                forall|k: int| 0 <= k < p ==> name_le(#[trigger] sorted@[k].name@, x.name@),
            decreases sorted.len() - p,
        {
            p = p + 1;
        }
        proof {
            if p < sorted.len() {
                lemma_name_le_total(sorted@[p as int].name@, x.name@);
            }
            assert forall|j: int| p <= j < sorted.len() implies name_le(x.name@, #[trigger] sorted@[j].name@) by {
                if j > p {
                    lemma_name_le_trans(x.name@, sorted@[p as int].name@, sorted@[j].name@);
                }
            }
        }
        let ghost before = sorted@;
        sorted.insert(p, x);
        proof {
            assert(sorted@ == before.insert(p as int, x));
            assert forall|i: int, j: int| 0 <= i < j < sorted@.len() implies name_le(
                #[trigger] sorted@[i].name@,
                #[trigger] sorted@[j].name@,
            ) by {
                if i < p && j == p {
                } else if i == p {
                } else if i < p && j > p {
                    lemma_name_le_trans(before[i].name@, x.name@, before[j - 1].name@);
                } else if j < p {
                } else {
                }
            }
            assert(all.take(done + 1) =~= all.take(done as int).push(x));
            done = done + 1;
        }
        assert(rest@ =~= all.skip(done as int));
    }
    assert(all.take(done as int) =~= all);
    sorted
}

// ---------------------------------------------------------------------------
// The catalogue by provider
// ---------------------------------------------------------------------------

/// The agents that `entries` gives for provider `p`, in discovery order.
pub open spec fn agents_of(entries: Seq<(String, ResourceAgent)>, p: Seq<char>) -> Seq<ResourceAgent>
    decreases entries.len(),
{
    if entries.len() == 0 {
        Seq::empty()
    } else {
        agents_of(entries.drop_last(), p) + if entries.last().0@ == p {
            seq![entries.last().1]
        } else {
            Seq::empty()
        }
    }
}

/// The catalogue for `entries`: each provider once, holding exactly the agents discovered
/// for it, in order of their names.
pub open spec fn catalogue_of(entries: Seq<(String, ResourceAgent)>, groups: Seq<ProviderAgents>) -> bool {
    &&& forall|k1: int, k2: int|
        0 <= k1 < k2 < groups.len() ==> #[trigger] groups[k1].provider@ != #[trigger] groups[k2].provider@
    &&& forall|k: int|
        #![trigger groups[k]]
        0 <= k < groups.len() ==> groups[k].agents@.to_multiset() == agents_of(
            entries,
            groups[k].provider@,
        ).to_multiset() && sorted_by_name(groups[k].agents@)
    &&& forall|j: int| 0 <= j < entries.len() ==> #[trigger] has_group(groups, entries[j].0@)
}

/// Some group of the catalogue is for provider `p`.
pub open spec fn has_group(groups: Seq<ProviderAgents>, p: Seq<char>) -> bool {
    exists|k: int| 0 <= k < groups.len() && #[trigger] groups[k].provider@ == p
}

proof fn lemma_agents_of_step(entries: Seq<(String, ResourceAgent)>, i: int, p: Seq<char>)
    requires
        0 <= i < entries.len(),
    ensures
        agents_of(entries.take(i + 1), p) == agents_of(entries.take(i), p) + if entries[i].0@ == p {
            seq![entries[i].1]
        } else {
            Seq::empty()
        },
{
    assert(entries.take(i + 1).drop_last() =~= entries.take(i));
}

fn find_provider(names: &Vec<String>, p: &String) -> (r: Option<usize>)
    ensures
        match r {
            Some(k) => k < names.len() && names@[k as int]@ == p@,
            None => forall|k: int| 0 <= k < names.len() ==> #[trigger] names@[k]@ != p@,
        },
{
    let mut k: usize = 0;
    while k < names.len()
        invariant
            k <= names.len(),
            forall|j: int| 0 <= j < k ==> #[trigger] names@[j]@ != p@,
        decreases names.len() - k,
    {
        if names[k] == *p {
            return Some(k);
        }
        k = k + 1;
    }
    None
}

/// Groups the discovered agents by provider, each provider's agents ordered by name.
pub fn group_agents_by_provider(entries: Vec<(String, ResourceAgent)>) -> (r: ResourceAgentsByProvider)
    ensures
        catalogue_of(entries@, r.providers@),
{
    let ghost all = entries@;
    let mut rest = entries;
    let mut names: Vec<String> = Vec::new();
    let mut lists: Vec<Vec<ResourceAgent>> = Vec::new();
    let ghost mut i: int = 0;
    while rest.len() > 0
        invariant
            0 <= i <= all.len(),
            rest@ == all.skip(i),
            names.len() == lists.len(),
            forall|k1: int, k2: int|
                0 <= k1 < k2 < names.len() ==> #[trigger] names@[k1]@ != #[trigger] names@[k2]@,
            forall|k: int|
                #![trigger lists@[k]]
                0 <= k < lists.len() ==> lists@[k]@ == agents_of(all.take(i), names@[k]@),
            forall|j: int|
                #![trigger all[j]]
                0 <= j < i ==> exists|k: int| 0 <= k < names.len() && #[trigger] names@[k]@ == all[j].0@,
            forall|p: Seq<char>|
                (forall|k: int| 0 <= k < names.len() ==> #[trigger] names@[k]@ != p) ==> agents_of(
                    all.take(i),
                    p,
                ) == Seq::<ResourceAgent>::empty(),
        decreases rest.len(),
    {
        let e = rest.remove(0);
        assert(e == all[i]);
        let (p, a) = e;
        let ghost names0 = names@;
        let ghost lists0 = lists@;
        proof {
            assert forall|q: Seq<char>| #![trigger agents_of(all.take(i + 1), q)] true implies agents_of(all.take(i + 1), q) == agents_of(all.take(i), q)
                + if all[i].0@ == q { seq![all[i].1] } else { Seq::empty() } by {
                lemma_agents_of_step(all, i, q);
            }
        }
        match find_provider(&names, &p) {
            Some(k) => {
                let mut l = lists.remove(k);
                l.push(a);
                lists.insert(k, l);
                proof {
                    assert forall|k2: int| #![trigger lists@[k2]] 0 <= k2 < lists.len() implies lists@[k2]@
                        == agents_of(all.take(i + 1), names@[k2]@) by {
                        if k2 != k {
                            assert(lists@[k2] == lists0[k2]);
                        }
                    }
                    assert forall|j: int| #![trigger all[j]] 0 <= j < i + 1 implies exists|k3: int|
                        0 <= k3 < names.len() && #[trigger] names@[k3]@ == all[j].0@ by {
                        if j == i {
                            assert(names@[k as int]@ == all[j].0@);
                        }
                    }
                }
            },
            None => {
                names.push(p);
                let mut l: Vec<ResourceAgent> = Vec::new();
                l.push(a);
                lists.push(l);
                proof {
                    let n = names.len() - 1;
                    assert(agents_of(all.take(i), all[i].0@) == Seq::<ResourceAgent>::empty());
                    assert forall|k2: int| #![trigger lists@[k2]] 0 <= k2 < lists.len() implies lists@[k2]@
                        == agents_of(all.take(i + 1), names@[k2]@) by {
                        if k2 < n {
                            assert(lists@[k2] == lists0[k2]);
                            assert(names@[k2] == names0[k2]);
                        } else {
                            assert(l@ =~= seq![all[i].1]);
                        }
                    }
                    assert forall|j: int| #![trigger all[j]] 0 <= j < i + 1 implies exists|k3: int|
                        0 <= k3 < names.len() && #[trigger] names@[k3]@ == all[j].0@ by {
                        if j == i {
                            assert(names@[n as int]@ == all[j].0@);
                        } else {
                            let k3 = choose|k3: int| 0 <= k3 < names0.len() && #[trigger] names0[k3]@ == all[j].0@;
                            assert(names@[k3] == names0[k3]);
                        }
                    }
                    assert forall|q: Seq<char>|
                        #![trigger agents_of(all.take(i + 1), q)]
                        (forall|k: int| 0 <= k < names.len() ==> #[trigger] names@[k]@ != q) implies agents_of(
                            all.take(i + 1),
                            q,
                        ) == Seq::<ResourceAgent>::empty() by {
                        assert forall|k: int| 0 <= k < names0.len() implies #[trigger] names0[k]@ != q by {
                            assert(names@[k] == names0[k]);
                        }
                        assert(names@[n as int]@ != q);
                    }
                }
            },
        }
        proof {
            i = i + 1;
        }
        assert(rest@ =~= all.skip(i));
    }
    assert(all.take(i) =~= all);
    let ghost names_all = names@;
    let ghost lists_all = lists@;
    assert(forall|k: int| #![trigger lists_all[k]] 0 <= k < lists_all.len() ==> lists_all[k]@ == agents_of(entries@, names_all[k]@));
    let mut groups: Vec<ProviderAgents> = Vec::new();
    while names.len() > 0
        invariant
            names.len() == lists.len(),
            groups.len() + names.len() == names_all.len(),
            names@ == names_all.skip(groups.len() as int),
            lists@ == lists_all.skip(groups.len() as int),
            names_all.len() == lists_all.len(),
            forall|k: int|
                #![trigger groups@[k]]
                0 <= k < groups.len() ==> groups@[k].provider@ == names_all[k]@
                    && groups@[k].agents@.to_multiset() == lists_all[k]@.to_multiset()
                    && sorted_by_name(groups@[k].agents@),
        decreases names.len(),
    {
        let p = names.remove(0);
        let l = lists.remove(0);
        assert(p == names_all[groups.len() as int]);
        assert(l == lists_all[groups.len() as int]);
        let sorted = sort_agents_by_name(l);
        groups.push(ProviderAgents { provider: p, agents: sorted });
        assert(names@ =~= names_all.skip(groups.len() as int));
        assert(lists@ =~= lists_all.skip(groups.len() as int));
    }
    proof {
        assert forall|k: int| #![trigger groups@[k]] 0 <= k < groups.len() implies groups@[k].agents@.to_multiset()
            == agents_of(entries@, groups@[k].provider@).to_multiset() && sorted_by_name(groups@[k].agents@) by {
            assert(lists_all[k]@ == agents_of(entries@, names_all[k]@));
        }
        assert forall|k1: int, k2: int|
            0 <= k1 < k2 < groups.len() implies #[trigger] groups@[k1].provider@ != #[trigger] groups@[k2].provider@ by {
            assert(names_all[k1]@ != names_all[k2]@);
        }
        assert(all == entries@);
        let gs = groups@;
        let es = entries@;
        assert forall|j: int| 0 <= j < es.len() implies #[trigger] has_group(gs, es[j].0@) by {
            assert(all[j] == es[j]);
            let k = choose|k: int| 0 <= k < names_all.len() && #[trigger] names_all[k]@ == all[j].0@;
            assert(gs[k].provider@ == names_all[k]@);
            assert(0 <= k < gs.len());
        }
    }
    ResourceAgentsByProvider { providers: groups }
}

} // verus!
