//! Laws of the validation pass, stated over the same model its contracts
//! use: how often each failure is reported and at which path, that failures
//! never cascade between unrelated fields, and what a clean pass builds.

use vstd::prelude::*;

use crate::base::ChainView;
use crate::base::base_domains;
use crate::base::base_entries;
use crate::base::chain_entries;
use crate::base::lookup_spec;
use crate::report::EntryView;
use crate::report::ErrorCause;
use crate::settings::RawSettingsView;
use crate::settings::SettingsView;
use crate::settings::all_entries;
use crate::settings::name_field_entries;
use crate::settings::num_field_entries;
use crate::settings::num_field_value;
use crate::settings::resolve_entries;
use crate::settings::signer_field_entries;
use crate::settings::signer_field_value;
use crate::settings::spec_outcome;
use crate::settings::syncer_field_entries;
use crate::settings::syncer_field_value;
use crate::strint::CoerceError;
use crate::strint::coerce_u64_spec;

verus! {

/// How many entries stand at `path` with cause `cause`.
pub open spec fn count_at(entries: Seq<EntryView>, path: Seq<Seq<char>>, cause: ErrorCause) -> int
    decreases entries.len(),
{
    if entries.len() == 0 {
        0
    } else {
        count_at(entries.drop_last(), path, cause) + if entries.last().path == path
            && entries.last().cause == cause {
            1int
        } else {
            0int
        }
    }
}

/// How many entries stand at `path`, whatever their cause.
pub open spec fn count_path(entries: Seq<EntryView>, path: Seq<Seq<char>>) -> int
    decreases entries.len(),
{
    if entries.len() == 0 {
        0
    } else {
        count_path(entries.drop_last(), path) + if entries.last().path == path {
            1int
        } else {
            0int
        }
    }
}

/// How many entries carry cause `cause`, wherever they stand.
pub open spec fn count_cause(entries: Seq<EntryView>, cause: ErrorCause) -> int
    decreases entries.len(),
{
    if entries.len() == 0 {
        0
    } else {
        count_cause(entries.drop_last(), cause) + if entries.last().cause == cause {
            1int
        } else {
            0int
        }
    }
}

proof fn lemma_counts_concat(
    a: Seq<EntryView>,
    b: Seq<EntryView>,
    path: Seq<Seq<char>>,
    cause: ErrorCause,
)
    ensures
        count_at(a + b, path, cause) == count_at(a, path, cause) + count_at(b, path, cause),
        count_path(a + b, path) == count_path(a, path) + count_path(b, path),
        count_cause(a + b, cause) == count_cause(a, cause) + count_cause(b, cause),
    decreases b.len(),
{
    if b.len() == 0 {
        assert(a + b =~= a);
    } else {
        lemma_counts_concat(a, b.drop_last(), path, cause);
        assert((a + b).drop_last() =~= a + b.drop_last());
        assert((a + b).last() == b.last());
    }
}

proof fn lemma_counts_single(e: EntryView, path: Seq<Seq<char>>, cause: ErrorCause)
    ensures
        count_at(seq![e], path, cause) == if e.path == path && e.cause == cause {
            1int
        } else {
            0int
        },
        count_path(seq![e], path) == if e.path == path {
            1int
        } else {
            0int
        },
        count_cause(seq![e], cause) == if e.cause == cause {
            1int
        } else {
            0int
        },
{
    assert(seq![e].len() == 1);
    assert(seq![e].last() == e);
    assert(seq![e].drop_last() =~= Seq::<EntryView>::empty());
    assert(count_at(Seq::<EntryView>::empty(), path, cause) == 0);
    assert(count_path(Seq::<EntryView>::empty(), path) == 0);
    assert(count_cause(Seq::<EntryView>::empty(), cause) == 0);
}

proof fn lemma_counts_zero(entries: Seq<EntryView>, path: Seq<Seq<char>>, cause: ErrorCause)
    requires
        forall|k: int| 0 <= k < entries.len() ==> (#[trigger] entries[k]).path != path,
    ensures
        count_at(entries, path, cause) == 0,
        count_path(entries, path) == 0,
    decreases entries.len(),
{
    if entries.len() > 0 {
        lemma_counts_zero(entries.drop_last(), path, cause);
        assert(entries.last() == entries[entries.len() - 1]);
    }
}

proof fn lemma_count_cause_zero(entries: Seq<EntryView>, cause: ErrorCause)
    requires
        forall|k: int| 0 <= k < entries.len() ==> (#[trigger] entries[k]).cause != cause,
    ensures
        count_cause(entries, cause) == 0,
    decreases entries.len(),
{
    if entries.len() > 0 {
        lemma_count_cause_zero(entries.drop_last(), cause);
        assert(entries.last() == entries[entries.len() - 1]);
    }
}

/// Every entry of a registry parse stands three segments below the pass's
/// root, and none carries an unresolved-reference cause.
proof fn lemma_base_entries_shape(chains: Seq<ChainView>, filter: Option<Seq<char>>, cwp: Seq<Seq<char>>)
    ensures
        forall|k: int|
            0 <= k < base_entries(chains, filter, cwp).len() ==> (#[trigger] base_entries(
                chains,
                filter,
                cwp,
            )[k]).path.len() == cwp.len() + 3,
        forall|k: int|
            0 <= k < base_entries(chains, filter, cwp).len() ==> (#[trigger] base_entries(
                chains,
                filter,
                cwp,
            )[k]).cause != ErrorCause::UnresolvedReference,
    decreases chains.len(),
{
    if chains.len() > 0 {
        lemma_base_entries_shape(chains.drop_last(), filter, cwp);
        let c = chains.last();
        let ce = chain_entries(c, cwp);
        assert(forall|k: int| 0 <= k < ce.len() ==> (#[trigger] ce[k]).path.len() == cwp.len() + 3
            && ce[k].cause != ErrorCause::UnresolvedReference);
    }
}

/// The counts over a whole pass split into the counts of its seven parts.
proof fn lemma_all_entries_split(
    raw: RawSettingsView,
    cwp: Seq<Seq<char>>,
    path: Seq<Seq<char>>,
    cause: ErrorCause,
)
    ensures
        ({
            let e1 = signer_field_entries(raw.validator, cwp);
            let e2 = syncer_field_entries(raw.checkpointsyncer, cwp);
            let e3 = num_field_entries(raw.reorgperiod, cwp.push("reorgperiod"@));
            let e4 = num_field_entries(raw.interval, cwp.push("interval"@));
            let e5 = name_field_entries(raw.originchainname, cwp);
            let e6 = base_entries(raw.base, raw.originchainname, cwp);
            let e7 = resolve_entries(raw, cwp);
            &&& count_at(all_entries(raw, cwp), path, cause) == count_at(e1, path, cause)
                + count_at(e2, path, cause) + count_at(e3, path, cause) + count_at(e4, path, cause)
                + count_at(e5, path, cause) + count_at(e6, path, cause) + count_at(e7, path, cause)
            &&& count_path(all_entries(raw, cwp), path) == count_path(e1, path) + count_path(
                e2,
                path,
            ) + count_path(e3, path) + count_path(e4, path) + count_path(e5, path) + count_path(
                e6,
                path,
            ) + count_path(e7, path)
            &&& count_cause(all_entries(raw, cwp), cause) == count_cause(e1, cause) + count_cause(
                e2,
                cause,
            ) + count_cause(e3, cause) + count_cause(e4, cause) + count_cause(e5, cause)
                + count_cause(e6, cause) + count_cause(e7, cause)
        }),
{
    let e1 = signer_field_entries(raw.validator, cwp);
    let e2 = syncer_field_entries(raw.checkpointsyncer, cwp);
    let e3 = num_field_entries(raw.reorgperiod, cwp.push("reorgperiod"@));
    let e4 = num_field_entries(raw.interval, cwp.push("interval"@));
    let e5 = name_field_entries(raw.originchainname, cwp);
    let e6 = base_entries(raw.base, raw.originchainname, cwp);
    let e7 = resolve_entries(raw, cwp);
    lemma_counts_concat(e1, e2, path, cause);
    lemma_counts_concat(e1 + e2, e3, path, cause);
    lemma_counts_concat(e1 + e2 + e3, e4, path, cause);
    lemma_counts_concat(e1 + e2 + e3 + e4, e5, path, cause);
    lemma_counts_concat(e1 + e2 + e3 + e4 + e5, e6, path, cause);
    lemma_counts_concat(e1 + e2 + e3 + e4 + e5 + e6, e7, path, cause);
}

/// The field names and nested names the pass attributes entries to, with
/// their lengths; the five field names all differ in length.
proof fn lemma_field_names()
    ensures
        "validator"@.len() == 9,
        "checkpointsyncer"@.len() == 16,
        "reorgperiod"@.len() == 11,
        "interval"@.len() == 8,
        "originchainname"@.len() == 15,
        "key"@.len() == 3,
        "location"@.len() == 8,
{
    reveal_strlit("validator");
    reveal_strlit("checkpointsyncer");
    reveal_strlit("reorgperiod");
    reveal_strlit("interval");
    reveal_strlit("originchainname");
    reveal_strlit("key");
    reveal_strlit("location");
}

/// Whether `seg` is the name of one of the five raw fields.
pub open spec fn is_field_seg(seg: Seq<char>) -> bool {
    seg == "validator"@ || seg == "checkpointsyncer"@ || seg == "reorgperiod"@ || seg
        == "interval"@ || seg == "originchainname"@
}

/// The entries that the one field named `seg` contributes to the pass; the
/// origin-chain-name field also owns what the dependency resolver reports.
pub open spec fn field_component(raw: RawSettingsView, cwp: Seq<Seq<char>>, seg: Seq<char>) -> Seq<
    EntryView,
> {
    if seg == "validator"@ {
        signer_field_entries(raw.validator, cwp)
    } else if seg == "checkpointsyncer"@ {
        syncer_field_entries(raw.checkpointsyncer, cwp)
    } else if seg == "reorgperiod"@ {
        num_field_entries(raw.reorgperiod, cwp.push(seg))
    } else if seg == "interval"@ {
        num_field_entries(raw.interval, cwp.push(seg))
    } else {
        name_field_entries(raw.originchainname, cwp) + resolve_entries(raw, cwp)
    }
}

/// What the whole pass reports at a field's own path is exactly what that
/// field contributes there: sibling fields and the registry never write to
/// another field's path.
proof fn lemma_counts_localize(
    raw: RawSettingsView,
    cwp: Seq<Seq<char>>,
    seg: Seq<char>,
    cause: ErrorCause,
)
    requires
        is_field_seg(seg),
    ensures
        count_at(all_entries(raw, cwp), cwp.push(seg), cause) == count_at(
            field_component(raw, cwp, seg),
            cwp.push(seg),
            cause,
        ),
        count_path(all_entries(raw, cwp), cwp.push(seg)) == count_path(
            field_component(raw, cwp, seg),
            cwp.push(seg),
        ),
{
    lemma_field_names();
    let p = cwp.push(seg);
    lemma_all_entries_split(raw, cwp, p, cause);
    let e1 = signer_field_entries(raw.validator, cwp);
    let e2 = syncer_field_entries(raw.checkpointsyncer, cwp);
    let e3 = num_field_entries(raw.reorgperiod, cwp.push("reorgperiod"@));
    let e4 = num_field_entries(raw.interval, cwp.push("interval"@));
    let e5 = name_field_entries(raw.originchainname, cwp);
    let e6 = base_entries(raw.base, raw.originchainname, cwp);
    let e7 = resolve_entries(raw, cwp);

    // The registry's entries stand deeper than any field path.
    lemma_base_entries_shape(raw.base, raw.originchainname, cwp);
    lemma_counts_zero(e6, p, cause);

    // Each singleton component either owns the path or misses it.
    if e1.len() > 0 {
        assert(e1 =~= seq![e1[0]]);
        lemma_counts_single(e1[0], p, cause);
        assert(e1[0].path.len() == cwp.len() + 1 ==> e1[0].path.last() == "validator"@);
        assert(e1[0].path.len() == cwp.len() + 1 || e1[0].path.len() == cwp.len() + 2);
    }
    if e2.len() > 0 {
        assert(e2 =~= seq![e2[0]]);
        lemma_counts_single(e2[0], p, cause);
        assert(e2[0].path.len() == cwp.len() + 1 ==> e2[0].path.last() == "checkpointsyncer"@);
        assert(e2[0].path.len() == cwp.len() + 1 || e2[0].path.len() == cwp.len() + 2);
    }
    if e3.len() > 0 {
        assert(e3 =~= seq![e3[0]]);
        lemma_counts_single(e3[0], p, cause);
        assert(e3[0].path.last() == "reorgperiod"@);
    }
    if e4.len() > 0 {
        assert(e4 =~= seq![e4[0]]);
        lemma_counts_single(e4[0], p, cause);
        assert(e4[0].path.last() == "interval"@);
    }
    if e5.len() > 0 {
        assert(e5 =~= seq![e5[0]]);
        lemma_counts_single(e5[0], p, cause);
        assert(e5[0].path.last() == "originchainname"@);
    }
    if e7.len() > 0 {
        assert(e7 =~= seq![e7[0]]);
        lemma_counts_single(e7[0], p, cause);
        assert(e7[0].path.last() == "originchainname"@);
    }
    if seg == "originchainname"@ {
        lemma_counts_concat(e5, e7, p, cause);
    }
}

/// A missing required field is reported exactly once, as missing, at the
/// field's own path; and a field that is valid on its own never has any
/// entry at its path, whatever the other fields hold: failures do not
/// cascade between sibling fields.
pub proof fn lemma_missing_field_isolated(raw: RawSettingsView, cwp: Seq<Seq<char>>)
    ensures
        raw.validator is None ==> count_at(
            all_entries(raw, cwp),
            cwp.push("validator"@),
            ErrorCause::MissingField,
        ) == 1 && count_path(all_entries(raw, cwp), cwp.push("validator"@)) == 1,
        raw.checkpointsyncer is None ==> count_at(
            all_entries(raw, cwp),
            cwp.push("checkpointsyncer"@),
            ErrorCause::MissingField,
        ) == 1 && count_path(all_entries(raw, cwp), cwp.push("checkpointsyncer"@)) == 1,
        raw.reorgperiod is None ==> count_at(
            all_entries(raw, cwp),
            cwp.push("reorgperiod"@),
            ErrorCause::MissingField,
        ) == 1 && count_path(all_entries(raw, cwp), cwp.push("reorgperiod"@)) == 1,
        raw.interval is None ==> count_at(
            all_entries(raw, cwp),
            cwp.push("interval"@),
            ErrorCause::MissingField,
        ) == 1 && count_path(all_entries(raw, cwp), cwp.push("interval"@)) == 1,
        raw.originchainname is None ==> count_at(
            all_entries(raw, cwp),
            cwp.push("originchainname"@),
            ErrorCause::MissingField,
        ) == 1 && count_path(all_entries(raw, cwp), cwp.push("originchainname"@)) == 1,
        signer_field_value(raw.validator) is Some ==> count_path(
            all_entries(raw, cwp),
            cwp.push("validator"@),
        ) == 0,
        syncer_field_value(raw.checkpointsyncer) is Some ==> count_path(
            all_entries(raw, cwp),
            cwp.push("checkpointsyncer"@),
        ) == 0,
        num_field_value(raw.reorgperiod) is Some ==> count_path(
            all_entries(raw, cwp),
            cwp.push("reorgperiod"@),
        ) == 0,
        num_field_value(raw.interval) is Some ==> count_path(
            all_entries(raw, cwp),
            cwp.push("interval"@),
        ) == 0,
{
    lemma_field_names();
    lemma_counts_localize(raw, cwp, "validator"@, ErrorCause::MissingField);
    lemma_counts_localize(raw, cwp, "checkpointsyncer"@, ErrorCause::MissingField);
    lemma_counts_localize(raw, cwp, "reorgperiod"@, ErrorCause::MissingField);
    lemma_counts_localize(raw, cwp, "interval"@, ErrorCause::MissingField);
    lemma_counts_localize(raw, cwp, "originchainname"@, ErrorCause::MissingField);
    lemma_field_component_counts(raw, cwp, "validator"@, ErrorCause::MissingField);
    lemma_field_component_counts(raw, cwp, "checkpointsyncer"@, ErrorCause::MissingField);
    lemma_field_component_counts(raw, cwp, "reorgperiod"@, ErrorCause::MissingField);
    lemma_field_component_counts(raw, cwp, "interval"@, ErrorCause::MissingField);
    lemma_field_component_counts(raw, cwp, "originchainname"@, ErrorCause::MissingField);
}

/// The counts of one field's own contribution at its own path.
proof fn lemma_field_component_counts(
    raw: RawSettingsView,
    cwp: Seq<Seq<char>>,
    seg: Seq<char>,
    cause: ErrorCause,
)
    requires
        is_field_seg(seg),
    ensures
        seg == "validator"@ && raw.validator is None ==> count_at(
            field_component(raw, cwp, seg),
            cwp.push(seg),
            ErrorCause::MissingField,
        ) == 1 && count_path(field_component(raw, cwp, seg), cwp.push(seg)) == 1,
        seg == "validator"@ && raw.validator is Some ==> count_path(
            field_component(raw, cwp, seg),
            cwp.push(seg),
        ) == 0,
        seg == "checkpointsyncer"@ && raw.checkpointsyncer is None ==> count_at(
            field_component(raw, cwp, seg),
            cwp.push(seg),
            ErrorCause::MissingField,
        ) == 1 && count_path(field_component(raw, cwp, seg), cwp.push(seg)) == 1,
        seg == "checkpointsyncer"@ && raw.checkpointsyncer is Some ==> count_path(
            field_component(raw, cwp, seg),
            cwp.push(seg),
        ) == 0,
        seg == "reorgperiod"@ && raw.reorgperiod is None ==> count_at(
            field_component(raw, cwp, seg),
            cwp.push(seg),
            ErrorCause::MissingField,
        ) == 1 && count_path(field_component(raw, cwp, seg), cwp.push(seg)) == 1,
        seg == "reorgperiod"@ && num_field_value(raw.reorgperiod) is Some ==> count_path(
            field_component(raw, cwp, seg),
            cwp.push(seg),
        ) == 0,
        seg == "interval"@ && raw.interval is None ==> count_at(
            field_component(raw, cwp, seg),
            cwp.push(seg),
            ErrorCause::MissingField,
        ) == 1 && count_path(field_component(raw, cwp, seg), cwp.push(seg)) == 1,
        seg == "interval"@ && num_field_value(raw.interval) is Some ==> count_path(
            field_component(raw, cwp, seg),
            cwp.push(seg),
        ) == 0,
        seg == "originchainname"@ && raw.originchainname is None ==> count_at(
            field_component(raw, cwp, seg),
            cwp.push(seg),
            ErrorCause::MissingField,
        ) == 1 && count_path(field_component(raw, cwp, seg), cwp.push(seg)) == 1,
{
    lemma_field_names();
    let p = cwp.push(seg);
    let comp = field_component(raw, cwp, seg);
    if seg == "originchainname"@ {
        let e5 = name_field_entries(raw.originchainname, cwp);
        let e7 = resolve_entries(raw, cwp);
        lemma_counts_concat(e5, e7, p, cause);
        lemma_counts_concat(e5, e7, p, ErrorCause::MissingField);
        if e5.len() > 0 {
            assert(e5 =~= seq![e5[0]]);
            lemma_counts_single(e5[0], p, cause);
            lemma_counts_single(e5[0], p, ErrorCause::MissingField);
        }
        if raw.originchainname is None {
            assert(e7 =~= Seq::<EntryView>::empty());
        }
    } else {
        if comp.len() > 0 {
            assert(comp =~= seq![comp[0]]);
            lemma_counts_single(comp[0], p, cause);
            lemma_counts_single(comp[0], p, ErrorCause::MissingField);
            assert(comp[0].path.len() == cwp.len() + 1 || comp[0].path.len() == cwp.len() + 2);
        }
    }
}

/// A field whose value is present but fails coercion is reported exactly
/// once, as malformed, at the field's own path, with the coercion cause
/// preserved in the entry.
pub proof fn lemma_malformed_field_reported(
    raw: RawSettingsView,
    cwp: Seq<Seq<char>>,
    v: crate::strint::StrOrIntView,
    c: CoerceError,
)
    requires
        coerce_u64_spec(v) == Err::<u64, CoerceError>(c),
    ensures
        raw.reorgperiod == Some(v) ==> count_at(
            all_entries(raw, cwp),
            cwp.push("reorgperiod"@),
            ErrorCause::MalformedField(c),
        ) == 1 && count_path(all_entries(raw, cwp), cwp.push("reorgperiod"@)) == 1,
        raw.interval == Some(v) ==> count_at(
            all_entries(raw, cwp),
            cwp.push("interval"@),
            ErrorCause::MalformedField(c),
        ) == 1 && count_path(all_entries(raw, cwp), cwp.push("interval"@)) == 1,
{
    lemma_field_names();
    if raw.reorgperiod == Some(v) {
        let p = cwp.push("reorgperiod"@);
        lemma_counts_localize(raw, cwp, "reorgperiod"@, ErrorCause::MalformedField(c));
        let comp = field_component(raw, cwp, "reorgperiod"@);
        assert(comp =~= seq![comp[0]]);
        lemma_counts_single(comp[0], p, ErrorCause::MalformedField(c));
    }
    if raw.interval == Some(v) {
        let p = cwp.push("interval"@);
        lemma_counts_localize(raw, cwp, "interval"@, ErrorCause::MalformedField(c));
        let comp = field_component(raw, cwp, "interval"@);
        assert(comp =~= seq![comp[0]]);
        lemma_counts_single(comp[0], p, ErrorCause::MalformedField(c));
    }
}

/// When the identifier field itself failed, the dependent lookup is
/// suppressed — the pass reports no unresolved reference at all — but
/// nothing else is: the pass still reports exactly what every other
/// component reports on its own.
pub proof fn lemma_failed_name_suppresses_lookup(raw: RawSettingsView, cwp: Seq<Seq<char>>)
    requires
        raw.originchainname is None,
    ensures
        count_cause(all_entries(raw, cwp), ErrorCause::UnresolvedReference) == 0,
        all_entries(raw, cwp) == signer_field_entries(raw.validator, cwp) + syncer_field_entries(
            raw.checkpointsyncer,
            cwp,
        ) + num_field_entries(raw.reorgperiod, cwp.push("reorgperiod"@)) + num_field_entries(
            raw.interval,
            cwp.push("interval"@),
        ) + name_field_entries(raw.originchainname, cwp) + base_entries(
            raw.base,
            raw.originchainname,
            cwp,
        ),
{
    lemma_no_unresolved_outside_resolver(raw, cwp);
    assert(resolve_entries(raw, cwp) =~= Seq::<EntryView>::empty());
    let head = signer_field_entries(raw.validator, cwp) + syncer_field_entries(
        raw.checkpointsyncer,
        cwp,
    ) + num_field_entries(raw.reorgperiod, cwp.push("reorgperiod"@)) + num_field_entries(
        raw.interval,
        cwp.push("interval"@),
    ) + name_field_entries(raw.originchainname, cwp) + base_entries(
        raw.base,
        raw.originchainname,
        cwp,
    );
    assert(all_entries(raw, cwp) =~= head);
}

/// Only the dependency resolver ever reports an unresolved reference.
proof fn lemma_no_unresolved_outside_resolver(raw: RawSettingsView, cwp: Seq<Seq<char>>)
    ensures
        count_cause(all_entries(raw, cwp), ErrorCause::UnresolvedReference) == count_cause(
            resolve_entries(raw, cwp),
            ErrorCause::UnresolvedReference,
        ),
{
    let unres = ErrorCause::UnresolvedReference;
    lemma_all_entries_split(raw, cwp, Seq::empty(), unres);
    let e1 = signer_field_entries(raw.validator, cwp);
    let e2 = syncer_field_entries(raw.checkpointsyncer, cwp);
    let e3 = num_field_entries(raw.reorgperiod, cwp.push("reorgperiod"@));
    let e4 = num_field_entries(raw.interval, cwp.push("interval"@));
    let e5 = name_field_entries(raw.originchainname, cwp);
    let e6 = base_entries(raw.base, raw.originchainname, cwp);
    lemma_base_entries_shape(raw.base, raw.originchainname, cwp);
    lemma_count_cause_zero(e6, unres);
    if e1.len() > 0 {
        assert(e1 =~= seq![e1[0]]);
        lemma_counts_single(e1[0], Seq::empty(), unres);
        assert(e1[0].cause == ErrorCause::MissingField);
    }
    if e2.len() > 0 {
        assert(e2 =~= seq![e2[0]]);
        lemma_counts_single(e2[0], Seq::empty(), unres);
        assert(e2[0].cause == ErrorCause::MissingField);
    }
    if e3.len() > 0 {
        assert(e3 =~= seq![e3[0]]);
        lemma_counts_single(e3[0], Seq::empty(), unres);
        assert(e3[0].cause != unres);
    }
    if e4.len() > 0 {
        assert(e4 =~= seq![e4[0]]);
        lemma_counts_single(e4[0], Seq::empty(), unres);
        assert(e4[0].cause != unres);
    }
    if e5.len() > 0 {
        assert(e5 =~= seq![e5[0]]);
        lemma_counts_single(e5[0], Seq::empty(), unres);
        assert(e5[0].cause == ErrorCause::MissingField);
    }
}

/// When the identifier resolved and the registry parsed cleanly but holds
/// no chain of that name, the pass reports exactly one unresolved
/// reference, at the identifier's path.
pub proof fn lemma_unresolved_reference_reported(
    raw: RawSettingsView,
    cwp: Seq<Seq<char>>,
    n: Seq<char>,
)
    requires
        raw.originchainname == Some(n),
        base_entries(raw.base, Some(n), cwp).len() == 0,
        lookup_spec(base_domains(raw.base, Some(n)), n) is None,
    ensures
        count_cause(all_entries(raw, cwp), ErrorCause::UnresolvedReference) == 1,
        count_at(
            all_entries(raw, cwp),
            cwp.push("originchainname"@),
            ErrorCause::UnresolvedReference,
        ) == 1,
{
    let unres = ErrorCause::UnresolvedReference;
    let p = cwp.push("originchainname"@);
    let e7 = resolve_entries(raw, cwp);
    lemma_no_unresolved_outside_resolver(raw, cwp);
    assert(e7 =~= seq![e7[0]]);
    lemma_counts_single(e7[0], p, unres);
    lemma_field_names();
    lemma_counts_localize(raw, cwp, "originchainname"@, unres);
    let e5 = name_field_entries(raw.originchainname, cwp);
    lemma_counts_concat(e5, e7, p, unres);
}

/// Round trip: when every required field is present and well typed and the
/// identifier resolves inside the cleanly parsed registry, the pass reports
/// nothing and builds exactly the converted values.
pub proof fn lemma_valid_input_builds(
    raw: RawSettingsView,
    cwp: Seq<Seq<char>>,
    n: Seq<char>,
    key: Seq<char>,
    location: Seq<char>,
    reorg: u64,
    secs: u64,
)
    requires
        raw.originchainname == Some(n),
        raw.validator == Some(Some(key)),
        raw.checkpointsyncer == Some(Some(location)),
        raw.reorgperiod is Some && coerce_u64_spec(raw.reorgperiod.unwrap()) == Ok::<
            u64,
            CoerceError,
        >(reorg),
        raw.interval is Some && coerce_u64_spec(raw.interval.unwrap()) == Ok::<u64, CoerceError>(
            secs,
        ),
        base_entries(raw.base, Some(n), cwp).len() == 0,
        lookup_spec(base_domains(raw.base, Some(n)), n) is Some,
    ensures
        spec_outcome(raw, cwp) == Ok::<SettingsView, Seq<EntryView>>(
            (SettingsView {
                base: base_domains(raw.base, Some(n)),
                origin_chain: lookup_spec(base_domains(raw.base, Some(n)), n).unwrap(),
                validator: key,
                checkpoint_syncer: location,
                reorg_period: reorg,
                interval_secs: secs,
            }),
        ),
{
    assert(all_entries(raw, cwp).len() == 0);
    assert(crate::settings::settings_value(raw) =~= (SettingsView {
        base: base_domains(raw.base, Some(n)),
        origin_chain: lookup_spec(base_domains(raw.base, Some(n)), n).unwrap(),
        validator: key,
        checkpoint_syncer: location,
        reorg_period: reorg,
        interval_secs: secs,
    }));
}

/// Validating the same raw input against the same root path twice yields
/// the same outcome: the pass is a function of its input alone, so a clean
/// input builds identical settings both times.
pub proof fn lemma_outcome_deterministic(
    raw: RawSettingsView,
    cwp: Seq<Seq<char>>,
    first: Result<SettingsView, Seq<EntryView>>,
    second: Result<SettingsView, Seq<EntryView>>,
)
    requires
        first == spec_outcome(raw, cwp),
        second == spec_outcome(raw, cwp),
    ensures
        first == second,
{
}

} // verus!
