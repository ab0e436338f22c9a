//! Flattening a profile: Bambu Studio profiles name a parent in `inherits`
//! and hold only the fields that differ from it; the flattened profile holds
//! every field of the chain, a child's fields over its parent's.

use vstd::prelude::*;
use crate::profile::generator::{applicable, fill_generated_profile, generated_entries, generated_name, printer_of};
use crate::profile::registry::{profile_named, ProfileRegistry};
use crate::profile::types::{copy_value, lookup, with_entry, Entries, FilamentProfile, ProfileValue, ValueView};
use crate::scraper::types::FilamentSpecs;
use crate::text::{chars_of, push_str, string_of};

verus! {

broadcast use vstd::string::group_string_axioms;

/// How many parents a chain may have before it is refused (a chain that
/// loops is refused this way too).
pub const MAX_INHERITANCE_DEPTH: u32 = 10;

/// The refusal of a chain longer than `MAX_INHERITANCE_DEPTH`.
pub const CHAIN_TOO_DEEP: &'static str = "Inheritance chain is too deep (or circular)";

/// The parent a profile names: a non-empty string `inherits`.
pub open spec fn parent_name(es: Entries) -> Option<Seq<char>> {
    match lookup(es, "inherits"@) {
        Some(ValueView::Str(s)) => if s.len() > 0 {
            Some(s)
        } else {
            None
        },
        _ => None,
    }
}

/// The fields of `base` with those of `child` set over them, in the child's
/// order.
pub open spec fn overlay(base: Entries, child: Entries) -> Entries
    decreases child.len(),
{
    if child.len() == 0 {
        base
    } else {
        with_entry(overlay(base, child.drop_last()), child.last().0, child.last().1)
    }
}

/// The refusal of a parent that the registry does not hold.
pub open spec fn missing_parent_message(p: Seq<char>) -> Seq<char> {
    "Parent profile '"@ + p + "' not found in registry"@
}

/// A profile flattened against the registry's profiles, following at most
/// `depth` parents: a profile without a parent as it is; otherwise its
/// flattened parent with its own fields over it. A parent the registry does
/// not hold, or a longer chain, is refused.
pub open spec fn flattened(reg: Seq<Entries>, es: Entries, depth: nat) -> Result<Entries, Seq<char>>
    decreases depth,
{
    match parent_name(es) {
        None => Ok(es),
        Some(p) => if depth == 0 {
            Err(CHAIN_TOO_DEEP@)
        } else {
            match profile_named(reg, p) {
                None => Err(missing_parent_message(p)),
                Some(pe) => match flattened(reg, pe, (depth - 1) as nat) {
                    Ok(b) => Ok(overlay(b, es)),
                    Err(e) => Err(e),
                },
            }
        },
    }
}

fn parent_of(p: &FilamentProfile) -> (r: Option<String>)
    ensures
        match r {
            Some(s) => parent_name(p@) == Some(s@),
            None => parent_name(p@) is None,
        },
{
    match p.get("inherits") {
        Some(ProfileValue::Str(s)) => {
            if chars_of(s.as_str()).len() > 0 {
                Some(s.clone())
            } else {
                None
            }
        },
        _ => None,
    }
}

fn overlay_into(base: &mut FilamentProfile, child: &FilamentProfile)
    ensures
        final(base)@ == overlay(old(base)@, child@),
{
    let entries = child.raw();
    let ghost cv = child@;
    let ghost b0 = base@;
    let mut i: usize = 0;
    while i < entries.len()
        invariant
            i <= entries.len(),
            entries@.map_values(|e: (String, ProfileValue)| (e.0@, e.1@)) == cv,
            base@ == overlay(b0, cv.take(i as int)),
        decreases entries.len() - i,
    {
        proof {
            assert(cv.take(i + 1).drop_last() =~= cv.take(i as int));
            assert(cv.take(i + 1).last() == cv[i as int]);
        }
        base.set_value(entries[i].0.as_str(), copy_value(&entries[i].1));
        i = i + 1;
    }
    proof {
        assert(cv.take(entries.len() as int) =~= cv);
    }
}

fn flatten(reg: &ProfileRegistry, p: &FilamentProfile, depth: u32) -> (r: Result<FilamentProfile, String>)
    ensures
        match r {
            Ok(q) => flattened(reg@, p@, depth as nat) == Ok::<Entries, Seq<char>>(q@),
            Err(m) => flattened(reg@, p@, depth as nat) == Err::<Entries, Seq<char>>(m@),
        },
    decreases depth,
{
    match parent_of(p) {
        None => Ok(p.clone()),
        Some(name) => {
            if depth == 0 {
                return Err(CHAIN_TOO_DEEP.to_string());
            }
            match reg.get_by_name(name.as_str()) {
                None => {
                    let mut m = chars_of("Parent profile '");
                    push_str(&mut m, name.as_str());
                    push_str(&mut m, "' not found in registry");
                    Err(string_of(&m))
                },
                Some(parent) => match flatten(reg, parent, depth - 1) {
                    Ok(mut base) => {
                        overlay_into(&mut base, p);
                        Ok(base)
                    },
                    Err(e) => Err(e),
                },
            }
        },
    }
}

/// A profile with its inheritance chain resolved against the registry
/// (see `flattened`, at most `MAX_INHERITANCE_DEPTH` parents).
pub fn resolve_inheritance(profile: &FilamentProfile, registry: &ProfileRegistry) -> (r: Result<
    FilamentProfile,
    String,
>)
    ensures
        match r {
            Ok(q) => flattened(registry@, profile@, MAX_INHERITANCE_DEPTH as nat) == Ok::<Entries, Seq<char>>(
                q@,
            ),
            Err(m) => flattened(registry@, profile@, MAX_INHERITANCE_DEPTH as nat) == Err::<
                Entries,
                Seq<char>,
            >(m@),
        },
{
    flatten(registry, profile, MAX_INHERITANCE_DEPTH)
}

/// The refusal of a base profile that the registry does not hold.
pub open spec fn missing_base_message(b: Seq<char>) -> Seq<char> {
    "Base profile '"@ + b
        + "' not found in registry. Is Bambu Studio installed with system profiles?"@
}

/// Generates a profile from specs on the named base profile: the base is
/// looked up in the registry and flattened, then turned into the generated
/// profile (see `generated_entries`) with the given filament id; returns it
/// with its file name. A missing base, or a chain that does not resolve,
/// is refused.
pub fn generate_entries(
    specs: &FilamentSpecs,
    registry: &ProfileRegistry,
    base_name: &str,
    target_printer: Option<&str>,
    filament_id: &str,
) -> (r: Result<(FilamentProfile, String), String>)
    requires
        applicable(*specs),
    ensures
        match profile_named(registry@, base_name@) {
            None => r matches Err(m) && m@ == missing_base_message(base_name@),
            Some(base) => match flattened(registry@, base, MAX_INHERITANCE_DEPTH as nat) {
                Err(e) => r matches Err(m) && m@ == e,
                Ok(flat) => {
                    let name = generated_name(*specs, printer_of(match target_printer {
                        Some(p) => Some(p@),
                        None => None,
                    }));
                    r matches Ok(pf) && pf.0@ == generated_entries(flat, *specs, name, filament_id@) && pf.1@
                        == name + ".json"@
                },
            },
        },
{
    match registry.get_by_name(base_name) {
        None => {
            let mut m = chars_of("Base profile '");
            push_str(&mut m, base_name);
            push_str(&mut m, "' not found in registry. Is Bambu Studio installed with system profiles?");
            Err(string_of(&m))
        },
        Some(base) => match resolve_inheritance(base, registry) {
            Ok(mut profile) => {
                let (_, filename) = fill_generated_profile(&mut profile, specs, target_printer, filament_id.to_string());
                Ok((profile, filename))
            },
            Err(e) => Err(e),
        },
    }
}

} // verus!
