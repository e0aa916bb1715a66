//! The settings builder: every field validator and the dependency resolver
//! run over one shared aggregator, and the fully typed settings are built
//! only when the aggregator stayed empty.

use vstd::prelude::*;

use crate::base::BaseSettings;
use crate::base::ChainView;
use crate::base::Domain;
use crate::base::DomainView;
use crate::base::RawBaseSettings;
use crate::base::base_domains;
use crate::base::base_entries;
use crate::base::lookup_spec;
use crate::path::ConfigPath;
use crate::report::EntryView;
use crate::report::ErrorAggregator;
use crate::report::ErrorCause;
use crate::report::ErrorReport;
use crate::strint::StrOrInt;
use crate::strint::StrOrIntView;
use crate::strint::coerce_u64_spec;
use crate::subconf::CheckpointSyncerConf;
use crate::subconf::RawCheckpointSyncerConf;
use crate::subconf::RawSignerConf;
use crate::subconf::SignerConf;
use crate::subconf::signer_entries;
use crate::subconf::syncer_entries;

verus! {

/// A span of time held as whole seconds.
#[derive(Clone, Copy, Debug, PartialEq, Eq, Structural)]
pub struct Duration {
    pub secs: u64,
}

impl Duration {
    /// The span of `secs` whole seconds.
    pub fn from_secs(secs: u64) -> (r: Self)
        ensures
            r.secs == secs,
    {
        Duration { secs }
    }
}

/// The raw settings tree, exactly as an external loader supplies it: every
/// field optional, numbers possibly given as strings.
#[derive(Debug, PartialEq, Eq)]
pub struct RawValidatorSettings {
    /// The raw chain registry.
    pub base: RawBaseSettings,
    /// The name of the origin chain.
    pub originchainname: Option<String>,
    /// The raw attestation signer configuration.
    pub validator: Option<RawSignerConf>,
    /// The raw checkpoint syncer configuration.
    pub checkpointsyncer: Option<RawCheckpointSyncerConf>,
    /// The reorg period, in blocks.
    pub reorgperiod: Option<StrOrInt>,
    /// How many seconds to wait between checks for new checkpoints.
    pub interval: Option<StrOrInt>,
}

/// The mathematical value of a [`RawValidatorSettings`].
#[verifier::ext_equal]
pub struct RawSettingsView {
    pub base: Seq<ChainView>,
    pub originchainname: Option<Seq<char>>,
    pub validator: Option<Option<Seq<char>>>,
    pub checkpointsyncer: Option<Option<Seq<char>>>,
    pub reorgperiod: Option<StrOrIntView>,
    pub interval: Option<StrOrIntView>,
}

impl View for RawValidatorSettings {
    type V = RawSettingsView;

    open spec fn view(&self) -> RawSettingsView {
        RawSettingsView {
            base: self.base@,
            originchainname: self.originchainname.deep_view(),
            validator: self.validator.deep_view(),
            checkpointsyncer: self.checkpointsyncer.deep_view(),
            reorgperiod: self.reorgperiod.deep_view(),
            interval: self.interval.deep_view(),
        }
    }
}

/// The validated settings: every field present and typed, by construction
/// only reachable through a successful build.
#[derive(Debug, PartialEq, Eq)]
pub struct ValidatorSettings {
    /// The validated chain registry.
    pub base: BaseSettings,
    /// The origin chain, resolved by name inside the registry.
    pub origin_chain: Domain,
    /// The validator attestation signer.
    pub validator: SignerConf,
    /// The checkpoint syncer configuration.
    pub checkpoint_syncer: CheckpointSyncerConf,
    /// The reorg period, in blocks.
    pub reorg_period: u64,
    /// How frequently to check for new checkpoints.
    pub interval: Duration,
}

/// The mathematical value of a [`ValidatorSettings`].
#[verifier::ext_equal]
pub struct SettingsView {
    pub base: Seq<DomainView>,
    pub origin_chain: DomainView,
    pub validator: Seq<char>,
    pub checkpoint_syncer: Seq<char>,
    pub reorg_period: u64,
    pub interval_secs: u64,
}

impl View for ValidatorSettings {
    type V = SettingsView;

    open spec fn view(&self) -> SettingsView {
        SettingsView {
            base: self.base@,
            origin_chain: self.origin_chain@,
            validator: self.validator@,
            checkpoint_syncer: self.checkpoint_syncer@,
            reorg_period: self.reorg_period,
            interval_secs: self.interval.secs,
        }
    }
}

/// The entries the signer field reports: missing at the field's own path,
/// or whatever the nested signer parse reports below it.
pub open spec fn signer_field_entries(v: Option<Option<Seq<char>>>, cwp: Seq<Seq<char>>) -> Seq<
    EntryView,
> {
    match v {
        None => seq![
            EntryView { path: cwp.push("validator"@), cause: ErrorCause::MissingField },
        ],
        Some(raw) => signer_entries(raw, cwp.push("validator"@)),
    }
}

/// The signer key the field validates to, if it does.
pub open spec fn signer_field_value(v: Option<Option<Seq<char>>>) -> Option<Seq<char>> {
    match v {
        Some(Some(key)) => Some(key),
        _ => None,
    }
}

/// The entries the checkpoint-syncer field reports.
pub open spec fn syncer_field_entries(v: Option<Option<Seq<char>>>, cwp: Seq<Seq<char>>) -> Seq<
    EntryView,
> {
    match v {
        None => seq![
            EntryView { path: cwp.push("checkpointsyncer"@), cause: ErrorCause::MissingField },
        ],
        Some(raw) => syncer_entries(raw, cwp.push("checkpointsyncer"@)),
    }
}

/// The syncer location the field validates to, if it does.
pub open spec fn syncer_field_value(v: Option<Option<Seq<char>>>) -> Option<Seq<char>> {
    match v {
        Some(Some(location)) => Some(location),
        _ => None,
    }
}

/// The entries a numeric field reports at its path: missing, or the cause
/// of a failed coercion.
pub open spec fn num_field_entries(v: Option<StrOrIntView>, path: Seq<Seq<char>>) -> Seq<
    EntryView,
> {
    match v {
        None => seq![EntryView { path, cause: ErrorCause::MissingField }],
        Some(x) => match coerce_u64_spec(x) {
            Ok(_) => Seq::empty(),
            Err(cause) => seq![EntryView { path, cause: ErrorCause::MalformedField(cause) }],
        },
    }
}

/// The number a numeric field validates to, if it does.
pub open spec fn num_field_value(v: Option<StrOrIntView>) -> Option<u64> {
    match v {
        None => None,
        Some(x) => match coerce_u64_spec(x) {
            Ok(n) => Some(n),
            Err(_) => None,
        },
    }
}

/// The entry the origin-chain-name field reports when it is absent.
pub open spec fn name_field_entries(v: Option<Seq<char>>, cwp: Seq<Seq<char>>) -> Seq<EntryView> {
    match v {
        None => seq![
            EntryView { path: cwp.push("originchainname"@), cause: ErrorCause::MissingField },
        ],
        Some(_) => Seq::empty(),
    }
}

/// The entry the dependency resolver reports: only when the name itself
/// resolved and the registry parsed cleanly, yet holds no chain of that
/// name, is a reference-not-found failure recorded. A failed prerequisite
/// suppresses the lookup, never the rest of the pass.
pub open spec fn resolve_entries(raw: RawSettingsView, cwp: Seq<Seq<char>>) -> Seq<EntryView> {
    match raw.originchainname {
        None => Seq::empty(),
        Some(n) => if base_entries(raw.base, Some(n), cwp).len() == 0 && lookup_spec(
            base_domains(raw.base, Some(n)),
            n,
        ) is None {
            seq![
                EntryView { path: cwp.push("originchainname"@), cause: ErrorCause::UnresolvedReference },
            ]
        } else {
            Seq::empty()
        },
    }
}

/// Every entry a whole validation pass reports, in the order the pass
/// records them: the field validators in their fixed order, then the
/// registry parse, then the dependency resolver.
pub open spec fn all_entries(raw: RawSettingsView, cwp: Seq<Seq<char>>) -> Seq<EntryView> {
    signer_field_entries(raw.validator, cwp) + syncer_field_entries(raw.checkpointsyncer, cwp)
        + num_field_entries(raw.reorgperiod, cwp.push("reorgperiod"@)) + num_field_entries(
        raw.interval,
        cwp.push("interval"@),
    ) + name_field_entries(raw.originchainname, cwp) + base_entries(
        raw.base,
        raw.originchainname,
        cwp,
    ) + resolve_entries(raw, cwp)
}

/// The settings a clean pass builds. Meaningful only when
/// `all_entries(raw, cwp)` is empty, which makes every inner value present.
pub open spec fn settings_value(raw: RawSettingsView) -> SettingsView {
    let domains = base_domains(raw.base, raw.originchainname);
    SettingsView {
        base: domains,
        origin_chain: lookup_spec(domains, raw.originchainname.unwrap()).unwrap(),
        validator: signer_field_value(raw.validator).unwrap(),
        checkpoint_syncer: syncer_field_value(raw.checkpointsyncer).unwrap(),
        reorg_period: num_field_value(raw.reorgperiod).unwrap(),
        interval_secs: num_field_value(raw.interval).unwrap(),
    }
}

/// Internal consistency of validated settings, which every successful
/// build establishes: the origin chain stands inside the validated
/// registry under its own name.
pub open spec fn settings_wf(s: SettingsView) -> bool {
    lookup_spec(s.base, s.origin_chain.name) == Some(s.origin_chain)
}

/// What one whole pass yields: the built settings when no entry was
/// recorded, the full report otherwise.
pub open spec fn spec_outcome(raw: RawSettingsView, cwp: Seq<Seq<char>>) -> Result<
    SettingsView,
    Seq<EntryView>,
> {
    if all_entries(raw, cwp).len() == 0 {
        Ok(settings_value(raw))
    } else {
        Err(all_entries(raw, cwp))
    }
}

/// Records any failure into the aggregator and turns the result into an
/// optional value, so a failed field never aborts the pass.
pub fn guard<T>(r: Result<T, ErrorCause>, agg: &mut ErrorAggregator, path: ConfigPath) -> (o:
    Option<T>)
    ensures
        match r {
            Ok(t) => o == Some(t) && final(agg)@ == old(agg)@,
            Err(cause) => o is None && final(agg)@ == old(agg)@.push(
                EntryView { path: path@, cause },
            ),
        },
{
    match r {
        Ok(t) => Some(t),
        Err(cause) => {
            agg.record(path, cause);
            None
        },
    }
}

/// Absorbs a sub-parser's failures into the shared aggregator and turns
/// its result into an optional value.
pub fn take_config_err<T>(r: Result<T, ErrorAggregator>, agg: &mut ErrorAggregator) -> (o: Option<
    T,
>)
    ensures
        match r {
            Ok(t) => o == Some(t) && final(agg)@ == old(agg)@,
            Err(sub) => o is None && final(agg)@ == old(agg)@ + sub@,
        },
{
    match r {
        Ok(t) => Some(t),
        Err(sub) => {
            agg.merge(sub);
            None
        },
    }
}

/// Validates one numeric field: presence, then checked coercion, each
/// failure recorded at the field's path.
pub fn validate_u64_field(v: Option<StrOrInt>, agg: &mut ErrorAggregator, path: ConfigPath) -> (o:
    Option<u64>)
    ensures
        o == num_field_value(v.deep_view()),
        final(agg)@ == old(agg)@ + num_field_entries(v.deep_view(), path@),
{
    let ghost pv = path@;
    match v {
        None => {
            let r: Result<u64, ErrorCause> = Err(ErrorCause::MissingField);
            let o = guard(r, agg, path);
            proof {
                assert(agg@ =~= old(agg)@ + num_field_entries(v.deep_view(), pv));
            }
            o
        },
        Some(si) => {
            let r: Result<u64, ErrorCause> = match si.to_u64() {
                Ok(n) => Ok(n),
                Err(cause) => Err(ErrorCause::MalformedField(cause)),
            };
            let o = guard(r, agg, path);
            proof {
                assert(agg@ =~= old(agg)@ + num_field_entries(v.deep_view(), pv));
            }
            o
        },
    }
}

impl ValidatorSettings {
    /// Runs every field validator and the dependency resolver over one
    /// shared aggregator, then builds the typed settings only if nothing
    /// was recorded; otherwise the full report of the pass is returned.
    /// No failure aborts the pass early: every problem of the input is
    /// reported in one run.
    pub fn from_config_filtered(raw: RawValidatorSettings, cwp: &ConfigPath) -> (r: Result<
        ValidatorSettings,
        ErrorReport,
    >)
        ensures
            match r {
                Ok(s) => spec_outcome(raw@, cwp@) == Ok::<SettingsView, Seq<EntryView>>(s@)
                    && settings_wf(s@),
                Err(rep) => spec_outcome(raw@, cwp@) == Err::<SettingsView, Seq<EntryView>>(rep@),
            },
    {
        let ghost rv = raw@;
        let RawValidatorSettings { base, originchainname, validator, checkpointsyncer, reorgperiod, interval } =
            raw;
        let mut err = ErrorAggregator::new();

        let ghost e1 = signer_field_entries(rv.validator, cwp@);
        let vpath = cwp.join("validator");
        let validator_conf: Option<SignerConf> = match validator {
            None => {
                let r: Result<SignerConf, ErrorCause> = Err(ErrorCause::MissingField);
                guard(r, &mut err, vpath)
            },
            Some(rs) => take_config_err(rs.parse_config(&vpath), &mut err),
        };
        proof {
            assert(err@ =~= e1);
            assert(validator_conf.deep_view() == signer_field_value(rv.validator));
        }

        let ghost e2 = syncer_field_entries(rv.checkpointsyncer, cwp@);
        let spath = cwp.join("checkpointsyncer");
        let syncer_conf: Option<CheckpointSyncerConf> = match checkpointsyncer {
            None => {
                let r: Result<CheckpointSyncerConf, ErrorCause> = Err(ErrorCause::MissingField);
                guard(r, &mut err, spath)
            },
            Some(rs) => take_config_err(rs.parse_config(&spath), &mut err),
        };
        proof {
            assert(err@ =~= e1 + e2);
            assert(syncer_conf.deep_view() == syncer_field_value(rv.checkpointsyncer));
        }

        let ghost e3 = num_field_entries(rv.reorgperiod, cwp@.push("reorgperiod"@));
        let reorg_period = validate_u64_field(reorgperiod, &mut err, cwp.join("reorgperiod"));
        proof {
            assert(err@ =~= e1 + e2 + e3);
        }

        let ghost e4 = num_field_entries(rv.interval, cwp@.push("interval"@));
        let interval_secs = validate_u64_field(interval, &mut err, cwp.join("interval"));
        let interval_span: Option<Duration> = match interval_secs {
            Some(secs) => Some(Duration::from_secs(secs)),
            None => None,
        };
        proof {
            assert(err@ =~= e1 + e2 + e3 + e4);
        }

        let ghost e5 = name_field_entries(rv.originchainname, cwp@);
        let origin_chain_name: Option<String> = match originchainname {
            Some(name) => Some(name),
            None => {
                err.record(cwp.join("originchainname"), ErrorCause::MissingField);
                None
            },
        };
        proof {
            assert(origin_chain_name.deep_view() == rv.originchainname);
            assert(err@ =~= e1 + e2 + e3 + e4 + e5);
        }

        let ghost e6 = base_entries(rv.base, rv.originchainname, cwp@);
        let filter = origin_chain_name.as_ref();
        proof {
            assert(filter.deep_view() == rv.originchainname);
        }
        let base_conf = take_config_err(base.parse_config_with_filter(cwp, filter), &mut err);
        proof {
            assert(err@ =~= e1 + e2 + e3 + e4 + e5 + e6);
            assert(base_conf is Some <==> e6.len() == 0);
            assert(base_conf matches Some(b) ==> b@ == base_domains(rv.base, rv.originchainname));
        }

        let ghost e7 = resolve_entries(rv, cwp@);
        let origin_chain: Option<Domain> = if let Some(name) = &origin_chain_name {
            if let Some(b) = &base_conf {
                match b.lookup_domain(name.as_str()) {
                    Some(d) => Some(d),
                    None => {
                        err.record(cwp.join("originchainname"), ErrorCause::UnresolvedReference);
                        None
                    },
                }
            } else {
                None
            }
        } else {
            None
        };
        proof {
            assert(err@ =~= e1 + e2 + e3 + e4 + e5 + e6 + e7);
            assert(err@ =~= all_entries(rv, cwp@));
        }

        if err.is_empty() {
            proof {
                assert(e1.len() == 0 && e2.len() == 0 && e3.len() == 0 && e4.len() == 0 && e5.len()
                    == 0 && e6.len() == 0 && e7.len() == 0);
            }
            let out = ValidatorSettings {
                base: base_conf.unwrap(),
                origin_chain: origin_chain.unwrap(),
                validator: validator_conf.unwrap(),
                checkpoint_syncer: syncer_conf.unwrap(),
                reorg_period: reorg_period.unwrap(),
                interval: interval_span.unwrap(),
            };
            proof {
                assert(out@ =~= settings_value(rv));
                crate::base::lemma_lookup_names(
                    base_domains(rv.base, rv.originchainname),
                    rv.originchainname.unwrap(),
                );
            }
            Ok(out)
        } else {
            Err(err.into_report())
        }
    }
}

} // verus!
