//! Probe selection: apply the filter to the enumeration and resolve it to
//! exactly one probe. Zero candidates and more than one candidate are both
//! failures; the ambiguous case hands back the full candidate list so it
//! can be printed.

use vstd::prelude::*;
use vstd::string::StringExecFns;
use crate::errors::ConsoleError;
use crate::probe::{
    filter_matches, spec_parse_filter, FilterModel, ProbeDescriptor, ProbeFilter, ProbeModel,
};
use crate::text::{hex4, spec_dec, spec_hex4, usize_to_dec};

verus! {

/// The models of a sequence of probe descriptors.
pub open spec fn models(s: Seq<ProbeDescriptor>) -> Seq<ProbeModel> {
    s.map_values(|p: ProbeDescriptor| p@)
}

/// The probes of `probes` that `f` accepts, in their original order.
pub open spec fn matching(probes: Seq<ProbeModel>, f: FilterModel) -> Seq<ProbeModel> {
    probes.filter(|m: ProbeModel| filter_matches(f, m))
}

/// The candidate set of a selection: the whole enumeration when no filter
/// was given, the matching probes otherwise.
pub open spec fn candidates(probes: Seq<ProbeModel>, filter: Option<FilterModel>) -> Seq<
    ProbeModel,
> {
    match filter {
        None => probes,
        Some(f) => matching(probes, f),
    }
}

/// Selection law: the candidate set of a filtered selection is exactly the
/// enumeration restricted to the probes the filter accepts, and a
/// selection without a filter considers the whole enumeration.
pub proof fn lemma_selection_candidates(probes: Seq<ProbeModel>, f: FilterModel)
    ensures
        candidates(probes, Some(f)) == probes.filter(|m: ProbeModel| filter_matches(f, m)),
        candidates(probes, None) == probes,
{
}

/// An empty enumeration has no candidates under any filter, so its
/// selection can only fail with `NoProbeFound`.
pub proof fn lemma_empty_selection(filter: Option<FilterModel>)
    ensures
        candidates(Seq::<ProbeModel>::empty(), filter).len() == 0,
{
}

/// Appending one probe to the enumeration appends it to the matching set
/// exactly when the filter accepts it.
proof fn lemma_matching_push(probes: Seq<ProbeModel>, f: FilterModel, m: ProbeModel)
    ensures
        matching(probes.push(m), f) == if filter_matches(f, m) {
            matching(probes, f).push(m)
        } else {
            matching(probes, f)
        },
{
    reveal_with_fuel(Seq::<_>::filter, 2);
    let pushed = probes.push(m);
    assert(pushed.drop_last() =~= probes);
    assert(pushed.last() == m);
    assert(pushed.len() == probes.len() + 1 > 0);
}

/// Filters the enumeration: returns exactly the probes the filter accepts,
/// in their original order.
pub fn filter_probes(probes: &Vec<ProbeDescriptor>, filter: &ProbeFilter) -> (r: Vec<
    ProbeDescriptor,
>)
    ensures
        models(r@) == matching(models(probes@), filter@),
{
    let mut out: Vec<ProbeDescriptor> = Vec::new();
    let mut i: usize = 0;
    while i < probes.len()
        invariant
            i <= probes@.len(),
            models(out@) == matching(models(probes@.take(i as int)), filter@),
        decreases probes@.len() - i,
    {
        proof {
            assert(models(probes@.take(i + 1)) =~= models(probes@.take(i as int)).push(
                probes@[i as int]@,
            ));
            lemma_matching_push(models(probes@.take(i as int)), filter@, probes@[i as int]@);
        }
        let p = &probes[i];
        if filter.matches(p) {
            out.push(p.clone());
            assert(models(out@) =~= matching(models(probes@.take(i + 1)), filter@));
        }
        i = i + 1;
    }
    proof {
        assert(probes@.take(probes@.len() as int) =~= probes@);
    }
    out
}

/// Copies the enumeration unchanged.
fn clone_probes(probes: &Vec<ProbeDescriptor>) -> (r: Vec<ProbeDescriptor>)
    ensures
        models(r@) == models(probes@),
{
    let mut out: Vec<ProbeDescriptor> = Vec::new();
    let mut i: usize = 0;
    while i < probes.len()
        invariant
            i <= probes@.len(),
            models(out@) == models(probes@.take(i as int)),
        decreases probes@.len() - i,
    {
        out.push(probes[i].clone());
        proof {
            assert(models(out@) =~= models(probes@.take(i as int)).push(probes@[i as int]@));
            assert(models(probes@.take(i + 1)) =~= models(probes@.take(i as int)).push(
                probes@[i as int]@,
            ));
        }
        i = i + 1;
    }
    proof {
        assert(probes@.take(probes@.len() as int) =~= probes@);
    }
    out
}

/// The model of an optional filter.
pub open spec fn spec_filter_opt(filter: Option<&ProbeFilter>) -> Option<FilterModel> {
    match filter {
        Some(f) => Some(f@),
        None => None,
    }
}

/// Resolves the enumeration to exactly one probe. The candidate set is the
/// enumeration filtered by the selector (or the whole enumeration without
/// one); an empty candidate set fails `NoProbeFound`, more than one
/// candidate fails `AmbiguousProbe` carrying the complete candidate list,
/// and exactly one candidate is returned.
pub fn select_probe(probes: &Vec<ProbeDescriptor>, filter: Option<&ProbeFilter>) -> (r: Result<
    ProbeDescriptor,
    ConsoleError,
>)
    ensures
        ({
            let cands = candidates(models(probes@), spec_filter_opt(filter));
            match r {
                Ok(p) => cands.len() == 1 && p@ == cands[0],
                Err(e) => match e {
                    ConsoleError::NoProbeFound => cands.len() == 0,
                    ConsoleError::AmbiguousProbe(list) => cands.len() > 1 && models(list@)
                        == cands,
                    _ => false,
                },
            }
        }),
{
    let matched: Vec<ProbeDescriptor> = match filter {
        Some(f) => filter_probes(probes, f),
        None => clone_probes(probes),
    };
    if matched.len() == 0 {
        Err(ConsoleError::NoProbeFound)
    } else if matched.len() > 1 {
        Err(ConsoleError::AmbiguousProbe(matched))
    } else {
        let mut one = matched;
        let p = one.remove(0);
        Ok(p)
    }
}

/// Parses the optional selector token and resolves the enumeration with
/// it: the computational core of opening a probe. A malformed token fails
/// `InvalidFilterFormat` before any probe is considered; otherwise the
/// outcome is that of `select_probe` under the parsed filter.
pub fn choose_probe(probes: &Vec<ProbeDescriptor>, selector: Option<&str>) -> (r: Result<
    ProbeDescriptor,
    ConsoleError,
>)
    ensures
        ({
            let parsed = match selector {
                Some(s) => spec_parse_filter(s@),
                None => None,
            };
            if selector is Some && parsed is None {
                r matches Err(e) && e is InvalidFilterFormat
            } else {
                let cands = candidates(models(probes@), parsed);
                match r {
                    Ok(p) => cands.len() == 1 && p@ == cands[0],
                    Err(e) => match e {
                        ConsoleError::NoProbeFound => cands.len() == 0,
                        ConsoleError::AmbiguousProbe(list) => cands.len() > 1 && models(list@)
                            == cands,
                        _ => false,
                    },
                }
            }
        }),
{
    match selector {
        Some(s) => {
            let filter = match ProbeFilter::from_str(s) {
                Ok(f) => f,
                Err(e) => {
                    return Err(e);
                },
            };
            select_probe(probes, Some(&filter))
        },
        None => select_probe(probes, None),
    }
}

/// One line of the candidate list: the index, the probe's label, its
/// vendor and product id in hexadecimal and its serial, if it has one.
pub open spec fn spec_probe_line(index: nat, p: ProbeModel) -> Seq<char> {
    "["@ + spec_dec(index) + "]: "@ + p.identifier + " (VID: "@ + spec_hex4(p.vendor_id)
        + ", PID: "@ + spec_hex4(p.product_id) + (match p.serial_number {
        Some(sn) => ", Serial: "@ + sn,
        None => Seq::<char>::empty(),
    }) + ")"@
}

/// Renders one candidate probe with its index for the ambiguity listing.
pub fn probe_line(index: usize, p: &ProbeDescriptor) -> (r: String)
    ensures
        r@ == spec_probe_line(index as nat, p@),
{
    let mut s = String::from_str("[");
    let dec = usize_to_dec(index);
    s.append(dec.as_str());
    s.append("]: ");
    s.append(p.identifier.as_str());
    s.append(" (VID: ");
    let vid = hex4(p.vendor_id);
    s.append(vid.as_str());
    s.append(", PID: ");
    let pid = hex4(p.product_id);
    s.append(pid.as_str());
    match &p.serial_number {
        Some(sn) => {
            s.append(", Serial: ");
            s.append(sn.as_str());
        },
        None => {},
    }
    s.append(")");
    proof {
        assert(s@ =~= spec_probe_line(index as nat, p@));
    }
    s
}

/// Renders the whole candidate list, one line per probe: as many lines as
/// there are candidates, each describing the candidate at its index.
pub fn probe_list_lines(probes: &Vec<ProbeDescriptor>) -> (r: Vec<String>)
    ensures
        r@.len() == probes@.len(),
        forall|i: int|
            0 <= i < probes@.len() ==> #[trigger] r@[i]@ == spec_probe_line(
                i as nat,
                probes@[i]@,
            ),
{
    let mut out: Vec<String> = Vec::new();
    let mut i: usize = 0;
    while i < probes.len()
        invariant
            i <= probes@.len(),
            out@.len() == i,
            forall|k: int|
                0 <= k < i ==> #[trigger] out@[k]@ == spec_probe_line(k as nat, probes@[k]@),
        decreases probes@.len() - i,
    {
        let line = probe_line(i, &probes[i]);
        out.push(line);
        i = i + 1;
    }
    out
}

} // verus!
