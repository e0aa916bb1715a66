//! The base chain registry: raw chain entries validated into domains, and
//! name lookup inside the validated registry.

use vstd::prelude::*;

use crate::path::ConfigPath;
use crate::report::EntryView;
use crate::report::ErrorAggregator;
use crate::report::ErrorCause;
use crate::strint::StrOrInt;
use crate::strint::StrOrIntView;
use crate::strint::coerce_u64_spec;

verus! {

/// One raw entry of the chain registry: the chain's name, and its domain
/// identifier, possibly absent and possibly given as a string.
#[derive(Debug, PartialEq, Eq)]
pub struct RawChainConf {
    pub name: String,
    pub domainid: Option<StrOrInt>,
}

/// The mathematical value of a [`RawChainConf`].
#[verifier::ext_equal]
pub struct ChainView {
    pub name: Seq<char>,
    pub domainid: Option<StrOrIntView>,
}

impl View for RawChainConf {
    type V = ChainView;

    open spec fn view(&self) -> ChainView {
        ChainView { name: self.name@, domainid: self.domainid.deep_view() }
    }
}

impl DeepView for RawChainConf {
    type V = ChainView;

    open spec fn deep_view(&self) -> ChainView {
        self.view()
    }
}

/// A validated chain: its name and its numeric domain identifier.
#[derive(Debug, PartialEq, Eq)]
pub struct Domain {
    pub name: String,
    pub id: u64,
}

/// The mathematical value of a [`Domain`].
#[verifier::ext_equal]
pub struct DomainView {
    pub name: Seq<char>,
    pub id: u64,
}

impl View for Domain {
    type V = DomainView;

    open spec fn view(&self) -> DomainView {
        DomainView { name: self.name@, id: self.id }
    }
}

impl DeepView for Domain {
    type V = DomainView;

    open spec fn deep_view(&self) -> DomainView {
        self.view()
    }
}

impl Clone for Domain {
    fn clone(&self) -> (r: Self)
        ensures
            r@ == self@,
    {
        Domain { name: self.name.clone(), id: self.id }
    }
}

/// The raw, unvalidated chain registry.
#[derive(Debug, PartialEq, Eq)]
pub struct RawBaseSettings {
    pub chains: Vec<RawChainConf>,
}

impl View for RawBaseSettings {
    type V = Seq<ChainView>;

    open spec fn view(&self) -> Seq<ChainView> {
        self.chains.deep_view()
    }
}

/// The validated chain registry.
#[derive(Debug, PartialEq, Eq)]
pub struct BaseSettings {
    pub chains: Vec<Domain>,
}

impl View for BaseSettings {
    type V = Seq<DomainView>;

    open spec fn view(&self) -> Seq<DomainView> {
        self.chains.deep_view()
    }
}

/// Whether a chain falls under the narrowing filter: with no filter every
/// chain is parsed, with one only the chain of that name is.
pub open spec fn chain_selected(c: ChainView, filter: Option<Seq<char>>) -> bool {
    match filter {
        None => true,
        Some(f) => c.name == f,
    }
}

/// The path a chain's failures are attributed to.
pub open spec fn chain_path(name: Seq<char>, cwp: Seq<Seq<char>>) -> Seq<Seq<char>> {
    cwp.push("chains"@).push(name).push("domainid"@)
}

/// The entries one chain's validation reports.
pub open spec fn chain_entries(c: ChainView, cwp: Seq<Seq<char>>) -> Seq<EntryView> {
    match c.domainid {
        None => seq![
            EntryView { path: chain_path(c.name, cwp), cause: ErrorCause::MissingField },
        ],
        Some(v) => match coerce_u64_spec(v) {
            Ok(_) => Seq::empty(),
            Err(cause) => seq![
                EntryView { path: chain_path(c.name, cwp), cause: ErrorCause::MalformedField(cause) },
            ],
        },
    }
}

/// The domain one chain validates to, if it does.
pub open spec fn chain_domain(c: ChainView) -> Option<DomainView> {
    match c.domainid {
        None => None,
        Some(v) => match coerce_u64_spec(v) {
            Ok(id) => Some(DomainView { name: c.name, id }),
            Err(_) => None,
        },
    }
}

/// The entries a registry parse reports: those of every selected chain, in
/// registry order.
pub open spec fn base_entries(
    chains: Seq<ChainView>,
    filter: Option<Seq<char>>,
    cwp: Seq<Seq<char>>,
) -> Seq<EntryView>
    decreases chains.len(),
{
    if chains.len() == 0 {
        Seq::empty()
    } else {
        base_entries(chains.drop_last(), filter, cwp) + (if chain_selected(
            chains.last(),
            filter,
        ) {
            chain_entries(chains.last(), cwp)
        } else {
            Seq::<EntryView>::empty()
        })
    }
}

/// The domains a registry parse yields: every selected chain that
/// validates, in registry order.
pub open spec fn base_domains(chains: Seq<ChainView>, filter: Option<Seq<char>>) -> Seq<DomainView>
    decreases chains.len(),
{
    if chains.len() == 0 {
        Seq::empty()
    } else {
        base_domains(chains.drop_last(), filter) + (if chain_selected(chains.last(), filter)
            && chain_domain(chains.last()) is Some {
            seq![chain_domain(chains.last()).unwrap()]
        } else {
            Seq::<DomainView>::empty()
        })
    }
}

/// The first domain of the given name, if any.
pub open spec fn lookup_spec(domains: Seq<DomainView>, name: Seq<char>) -> Option<DomainView>
    decreases domains.len(),
{
    if domains.len() == 0 {
        None
    } else if domains[0].name == name {
        Some(domains[0])
    } else {
        lookup_spec(domains.drop_first(), name)
    }
}

/// A domain that a lookup finds bears the name that was looked up.
pub proof fn lemma_lookup_names(domains: Seq<DomainView>, name: Seq<char>)
    ensures
        lookup_spec(domains, name) matches Some(d) ==> d.name == name,
    decreases domains.len(),
{
    if domains.len() > 0 && domains[0].name != name {
        lemma_lookup_names(domains.drop_first(), name);
    }
}

/// Looking a name up skips any prefix in which it does not occur.
proof fn lemma_lookup_skip(domains: Seq<DomainView>, name: Seq<char>, i: int)
    requires
        0 <= i <= domains.len(),
        forall|j: int| 0 <= j < i ==> (#[trigger] domains[j]).name != name,
    ensures
        lookup_spec(domains, name) == lookup_spec(domains.subrange(i, domains.len() as int), name),
    decreases i,
{
    if i > 0 {
        lemma_lookup_skip(domains, name, i - 1);
        let tail = domains.subrange(i - 1, domains.len() as int);
        assert(tail[0] == domains[i - 1]);
        assert(tail[0].name != name);
        assert(lookup_spec(tail, name) == lookup_spec(tail.drop_first(), name));
        assert(tail.drop_first() =~= domains.subrange(i, domains.len() as int));
    } else {
        assert(domains.subrange(0, domains.len() as int) =~= domains);
    }
}

/// Character-by-character equality of two strings.
fn str_eq(a: &str, b: &str) -> (r: bool)
    ensures
        r == (a@ == b@),
{
    let na = a.unicode_len();
    let nb = b.unicode_len();
    if na != nb {
        return false;
    }
    let mut i: usize = 0;
    while i < na
        invariant
            i <= na,
            na == a@.len(),
            na == b@.len(),
            forall|j: int| 0 <= j < i ==> a@[j] == b@[j],
        decreases na - i,
    {
        if a.get_char(i) != b.get_char(i) {
            return false;
        }
        i = i + 1;
    }
    proof {
        assert(a@ =~= b@);
    }
    true
}

impl RawBaseSettings {
    /// Validates the registry, parsing only the chains the filter selects.
    /// On any failure the reported entries are returned, in registry order;
    /// otherwise the validated registry is.
    pub fn parse_config_with_filter(self, cwp: &ConfigPath, filter: Option<&String>) -> (r: Result<
        BaseSettings,
        ErrorAggregator,
    >)
        ensures
            match r {
                Ok(b) => base_entries(self@, filter.deep_view(), cwp@) == Seq::<
                    EntryView,
                >::empty() && b@ == base_domains(self@, filter.deep_view()),
                Err(e) => e@ == base_entries(self@, filter.deep_view(), cwp@) && e@.len() != 0,
            },
    {
        let ghost fv = filter.deep_view();
        let mut agg = ErrorAggregator::new();
        let mut domains: Vec<Domain> = Vec::new();
        let mut i: usize = 0;
        proof {
            assert(agg@ =~= base_entries(self@.subrange(0, 0), fv, cwp@));
            assert(domains.deep_view() =~= base_domains(self@.subrange(0, 0), fv));
        }
        while i < self.chains.len()
            invariant
                i <= self.chains.len(),
                fv == filter.deep_view(),
                agg@ == base_entries(self@.subrange(0, i as int), fv, cwp@),
                domains.deep_view() == base_domains(self@.subrange(0, i as int), fv),
            decreases self.chains.len() - i,
        {
            let c = &self.chains[i];
            let selected = match filter {
                None => true,
                Some(f) => str_eq(c.name.as_str(), f.as_str()),
            };
            proof {
                assert(selected == chain_selected(self@[i as int], fv));
            }
            if selected {
                match &c.domainid {
                    None => {
                        let p = cwp.join("chains").join(c.name.as_str()).join("domainid");
                        agg.record(p, ErrorCause::MissingField);
                    },
                    Some(si) => {
                        match si.to_u64() {
                            Ok(id) => {
                                domains.push(Domain { name: c.name.clone(), id });
                            },
                            Err(cause) => {
                                let p = cwp.join("chains").join(c.name.as_str()).join("domainid");
                                agg.record(p, ErrorCause::MalformedField(cause));
                            },
                        }
                    },
                }
            }
            proof {
                let pre = self@.subrange(0, i as int);
                let post = self@.subrange(0, i as int + 1);
                assert(post.drop_last() =~= pre);
                assert(post.last() == self@[i as int]);
                assert(agg@ =~= base_entries(post, fv, cwp@));
                assert(domains.deep_view() =~= base_domains(post, fv));
            }
            i = i + 1;
        }
        proof {
            assert(self@.subrange(0, self@.len() as int) =~= self@);
        }
        if agg.is_empty() {
            proof {
                assert(base_entries(self@, fv, cwp@) =~= Seq::<EntryView>::empty());
            }
            Ok(BaseSettings { chains: domains })
        } else {
            Err(agg)
        }
    }
}

impl BaseSettings {
    /// The first domain of the given name, if the registry holds one.
    pub fn lookup_domain(&self, name: &str) -> (r: Option<Domain>)
        ensures
            match r {
                Some(d) => lookup_spec(self@, name@) == Some(d@),
                None => lookup_spec(self@, name@) is None,
            },
    {
        let mut i: usize = 0;
        while i < self.chains.len()
            invariant
                i <= self.chains.len(),
                forall|j: int| 0 <= j < i ==> (#[trigger] self@[j]).name != name@,
            decreases self.chains.len() - i,
        {
            if str_eq(self.chains[i].name.as_str(), name) {
                let d = self.chains[i].clone();
                proof {
                    lemma_lookup_skip(self@, name@, i as int);
                    let tail = self@.subrange(i as int, self@.len() as int);
                    assert(tail[0] == self@[i as int]);
                }
                return Some(d);
            }
            i = i + 1;
        }
        proof {
            lemma_lookup_skip(self@, name@, self@.len() as int);
            assert(self@.subrange(self@.len() as int, self@.len() as int) =~= Seq::<
                DomainView,
            >::empty());
        }
        None
    }
}

} // verus!
