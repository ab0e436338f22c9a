//! Physical plausibility checks of scraped filament specifications.

use vstd::prelude::*;
use crate::text::{chars_of, decimal, decimal_chars, digit_char, push_all, push_str, string_of};
use super::types::{material_tag, FilamentSpecs, MaterialType, ValidationWarning};

verus! {

broadcast use vstd::string::group_string_axioms;

/// Physical constraints for a filament material type.
/// Values outside these ranges indicate likely extraction errors.
#[derive(Debug, Clone, Copy)]
pub struct MaterialConstraints {
    /// Minimum safe nozzle temperature (Celsius)
    pub nozzle_temp_min: u16,
    /// Maximum safe nozzle temperature (Celsius)
    pub nozzle_temp_max: u16,
    /// Minimum safe bed temperature (Celsius)
    pub bed_temp_min: u16,
    /// Maximum safe bed temperature (Celsius)
    pub bed_temp_max: u16,
}

/// The constraint table: (nozzle min, nozzle max, bed min, bed max) for
/// each material family index (see `MaterialType::tag`).
pub open spec fn constraint_table(tag: nat) -> (u16, u16, u16, u16) {
    if tag == 0 {
        (180, 235, 0, 70)
    } else if tag == 1 {
        (210, 260, 40, 100)
    } else if tag == 2 {
        (210, 270, 70, 120)
    } else if tag == 3 {
        (220, 270, 80, 120)
    } else if tag == 4 {
        (200, 250, 20, 70)
    } else if tag == 5 {
        (230, 300, 50, 100)
    } else if tag == 6 {
        (250, 320, 90, 150)
    } else if tag == 7 {
        (170, 220, 30, 65)
    } else if tag == 8 {
        (210, 260, 80, 115)
    } else {
        (150, 400, 0, 120)
    }
}

impl MaterialConstraints {
    pub open spec fn as_tuple(&self) -> (u16, u16, u16, u16) {
        (self.nozzle_temp_min, self.nozzle_temp_max, self.bed_temp_min, self.bed_temp_max)
    }
}

/// The physical constraint ranges for a material type.
pub fn constraints_for_material(material: &MaterialType) -> (c: MaterialConstraints)
    ensures
        c.as_tuple() == constraint_table(material.tag()),
        c.nozzle_temp_min <= c.nozzle_temp_max,
        c.bed_temp_min <= c.bed_temp_max,
{
    match material {
        MaterialType::PLA => MaterialConstraints {
            nozzle_temp_min: 180,
            nozzle_temp_max: 235,
            bed_temp_min: 0,
            bed_temp_max: 70,
        },
        MaterialType::PETG => MaterialConstraints {
            nozzle_temp_min: 210,
            nozzle_temp_max: 260,
            bed_temp_min: 40,
            bed_temp_max: 100,
        },
        MaterialType::ABS => MaterialConstraints {
            nozzle_temp_min: 210,
            nozzle_temp_max: 270,
            bed_temp_min: 70,
            bed_temp_max: 120,
        },
        MaterialType::ASA => MaterialConstraints {
            nozzle_temp_min: 220,
            nozzle_temp_max: 270,
            bed_temp_min: 80,
            bed_temp_max: 120,
        },
        MaterialType::TPU => MaterialConstraints {
            nozzle_temp_min: 200,
            nozzle_temp_max: 250,
            bed_temp_min: 20,
            bed_temp_max: 70,
        },
        MaterialType::Nylon => MaterialConstraints {
            nozzle_temp_min: 230,
            nozzle_temp_max: 300,
            bed_temp_min: 50,
            bed_temp_max: 100,
        },
        MaterialType::PC => MaterialConstraints {
            nozzle_temp_min: 250,
            nozzle_temp_max: 320,
            bed_temp_min: 90,
            bed_temp_max: 150,
        },
        MaterialType::PVA => MaterialConstraints {
            nozzle_temp_min: 170,
            nozzle_temp_max: 220,
            bed_temp_min: 30,
            bed_temp_max: 65,
        },
        MaterialType::HIPS => MaterialConstraints {
            nozzle_temp_min: 210,
            nozzle_temp_max: 260,
            bed_temp_min: 80,
            bed_temp_max: 115,
        },
        MaterialType::Other(_) => MaterialConstraints {
            nozzle_temp_min: 150,
            nozzle_temp_max: 400,
            bed_temp_min: 0,
            bed_temp_max: 120,
        },
    }
}

/// Decimal text of a quantity held in thousandths, as `f32`'s `Display`
/// writes the value it stands for: no fractional part when it is whole,
/// otherwise the fractional digits without trailing zeros.
pub open spec fn milli_text(v: int) -> Seq<char> {
    if v < 0 {
        seq!['-'] + milli_text_nonneg(-v)
    } else {
        milli_text_nonneg(v)
    }
}

pub open spec fn milli_text_nonneg(v: int) -> Seq<char> {
    let whole = decimal((v / 1000) as nat);
    let f = v % 1000;
    let d1 = digit_char(f / 100);
    let d2 = digit_char((f / 10) % 10);
    let d3 = digit_char(f % 10);
    if f == 0 {
        whole
    } else if f % 10 != 0 {
        whole + seq!['.', d1, d2, d3]
    } else if f % 100 != 0 {
        whole + seq!['.', d1, d2]
    } else {
        whole + seq!['.', d1]
    }
}

fn digit_of(d: u64) -> (c: char)
    requires
        d < 10,
    ensures
        c == digit_char(d as int),
{
    let v = decimal_chars(d);
    v[0]
}

/// Decimal text of a quantity held in thousandths (see `milli_text`).
pub fn milli_chars(v: i64) -> (r: Vec<char>)
    ensures
        r@ == milli_text(v as int),
{
    let mut r: Vec<char> = Vec::new();
    let a: u64 = if v < 0 {
        r.push('-');
        (-(v as i128)) as u64
    } else {
        v as u64
    };
    let whole = decimal_chars(a / 1000);
    push_all(&mut r, &whole);
    let f = a % 1000;
    if f != 0 {
        r.push('.');
        r.push(digit_of(f / 100));
        if f % 100 != 0 {
            r.push(digit_of((f / 10) % 10));
            if f % 10 != 0 {
                r.push(digit_of(f % 10));
            }
        }
    }
    proof {
        if v < 0 {
            assert(r@ =~= seq!['-'] + milli_text_nonneg(a as int));
        } else {
            assert(r@ =~= milli_text_nonneg(a as int));
        }
    }
    r
}

/// The warning text for a temperature outside its range:
/// "`label` `value`C out of range for `material` (`lo`-`hi`C)".
pub open spec fn temp_message(label: Seq<char>, value: u16, material: Seq<char>, lo: u16, hi: u16) -> Seq<char> {
    label + decimal(value as nat) + "C out of range for "@ + material + " ("@ + decimal(lo as nat) + "-"@
        + decimal(hi as nat) + "C)"@
}

/// Warning on a temperature field when its value lies outside `[lo, hi]`.
pub open spec fn temp_check(
    field: Seq<char>,
    label: Seq<char>,
    value: Option<u16>,
    material: Seq<char>,
    lo: u16,
    hi: u16,
) -> Seq<(Seq<char>, Seq<char>, Seq<char>)> {
    match value {
        Some(t) => if t < lo || t > hi {
            seq![(field, temp_message(label, t, material, lo, hi), decimal(t as nat))]
        } else {
            Seq::empty()
        },
        None => Seq::empty(),
    }
}

/// The warnings that the validation of `specs` yields, in field order:
/// nozzle min, nozzle max, bed min, bed max (each against the material's
/// constraint table), retraction length (0-15 mm), retraction speed
/// (at most 100 mm/s), fan speed (at most 100 %), diameter (1.0-3.5 mm).
pub open spec fn expected_warnings(specs: FilamentSpecs) -> Seq<(Seq<char>, Seq<char>, Seq<char>)> {
    let (nlo, nhi, blo, bhi) = constraint_table(material_tag(specs.material@));
    let m = specs.material@;
    temp_check("nozzle_temp_min"@, "Nozzle temp min "@, specs.nozzle_temp_min, m, nlo, nhi)
        + temp_check("nozzle_temp_max"@, "Nozzle temp max "@, specs.nozzle_temp_max, m, nlo, nhi)
        + temp_check("bed_temp_min"@, "Bed temp min "@, specs.bed_temp_min, m, blo, bhi)
        + temp_check("bed_temp_max"@, "Bed temp max "@, specs.bed_temp_max, m, blo, bhi)
        + match specs.retraction_distance_mm {
            Some(r) => if r < 0 || r > 15000 {
                seq![("retraction_distance_mm"@, "Retraction distance "@ + milli_text(r as int)
                    + "mm out of range (0-15mm)"@, milli_text(r as int))]
            } else {
                Seq::empty()
            },
            None => Seq::empty(),
        }
        + match specs.retraction_speed_mm_s {
            Some(s) => if s > 100 {
                seq![("retraction_speed_mm_s"@, "Retraction speed "@ + decimal(s as nat)
                    + "mm/s out of range (0-100mm/s)"@, decimal(s as nat))]
            } else {
                Seq::empty()
            },
            None => Seq::empty(),
        }
        + match specs.fan_speed_percent {
            Some(f) => if f > 100 {
                seq![("fan_speed_percent"@, "Fan speed "@ + decimal(f as nat)
                    + "% out of range (0-100%)"@, decimal(f as nat))]
            } else {
                Seq::empty()
            },
            None => Seq::empty(),
        }
        + match specs.diameter_mm {
            Some(d) => if d < 1000 || d > 3500 {
                seq![("diameter_mm"@, "Diameter "@ + milli_text(d as int)
                    + "mm out of range (1.0-3.5mm)"@, milli_text(d as int))]
            } else {
                Seq::empty()
            },
            None => Seq::empty(),
        }
}

fn warning(field: &str, message: Vec<char>, value: Vec<char>) -> (w: ValidationWarning)
    ensures
        w@ == (field@, message@, value@),
{
    ValidationWarning {
        field: field.to_string(),
        message: string_of(&message),
        value: string_of(&value),
    }
}

fn check_temp(
    out: &mut Vec<ValidationWarning>,
    field: &str,
    label: &str,
    value: Option<u16>,
    material: &Vec<char>,
    lo: u16,
    hi: u16,
)
    ensures
        final(out)@.map_values(|w: ValidationWarning| w@) == old(out)@.map_values(
            |w: ValidationWarning| w@,
        ) + temp_check(field@, label@, value, material@, lo, hi),
{
    let ghost before = out@.map_values(|w: ValidationWarning| w@);
    if let Some(t) = value {
        if t < lo || t > hi {
            let mut m: Vec<char> = Vec::new();
            push_str(&mut m, label);
            let tv = decimal_chars(t as u64);
            push_all(&mut m, &tv);
            push_str(&mut m, "C out of range for ");
            push_all(&mut m, material);
            push_str(&mut m, " (");
            push_all(&mut m, &decimal_chars(lo as u64));
            push_str(&mut m, "-");
            push_all(&mut m, &decimal_chars(hi as u64));
            push_str(&mut m, "C)");
            let w = warning(field, m, tv);
            out.push(w);
            proof {
                assert(out@.map_values(|w: ValidationWarning| w@) =~= before + temp_check(
                    field@,
                    label@,
                    value,
                    material@,
                    lo,
                    hi,
                ));
            }
            return;
        }
    }
    proof {
        assert(out@.map_values(|w: ValidationWarning| w@) =~= before + temp_check(
            field@,
            label@,
            value,
            material@,
            lo,
            hi,
        ));
    }
}

/// Validate extracted filament specs against the physical constraints of
/// their material. The warnings flag values that are probably wrong.
#[verifier::rlimit(40)]
pub fn validate_specs(specs: &FilamentSpecs) -> (warnings: Vec<ValidationWarning>)
    ensures
        warnings@.map_values(|w: ValidationWarning| w@) == expected_warnings(*specs),
        ({
            let c = constraint_table(material_tag(specs.material@));
            let ws = warnings@.map_values(|w: ValidationWarning| w@);
            &&& warns_on(ws, "nozzle_temp_min"@) <==> out_of_range(specs.nozzle_temp_min, c.0, c.1)
            &&& warns_on(ws, "nozzle_temp_max"@) <==> out_of_range(specs.nozzle_temp_max, c.0, c.1)
            &&& warns_on(ws, "bed_temp_min"@) <==> out_of_range(specs.bed_temp_min, c.2, c.3)
            &&& warns_on(ws, "bed_temp_max"@) <==> out_of_range(specs.bed_temp_max, c.2, c.3)
            &&& warns_on(ws, "retraction_distance_mm"@) <==> (specs.retraction_distance_mm is Some && (
            specs.retraction_distance_mm->0 < 0 || specs.retraction_distance_mm->0 > 15000))
            &&& warns_on(ws, "retraction_speed_mm_s"@) <==> (specs.retraction_speed_mm_s is Some
                && specs.retraction_speed_mm_s->0 > 100)
            &&& warns_on(ws, "fan_speed_percent"@) <==> (specs.fan_speed_percent is Some && specs.fan_speed_percent->0
                > 100)
            &&& warns_on(ws, "diameter_mm"@) <==> (specs.diameter_mm is Some && (specs.diameter_mm->0 < 1000
                || specs.diameter_mm->0 > 3500))
        }),
{
    let mut warnings: Vec<ValidationWarning> = Vec::new();
    let material = MaterialType::from_str(specs.material.as_str());
    let c = constraints_for_material(&material);
    let m = chars_of(specs.material.as_str());
    proof {
        assert(warnings@.map_values(|w: ValidationWarning| w@) =~= Seq::empty());
    }
    check_temp(&mut warnings, "nozzle_temp_min", "Nozzle temp min ", specs.nozzle_temp_min, &m,
        c.nozzle_temp_min, c.nozzle_temp_max);
    check_temp(&mut warnings, "nozzle_temp_max", "Nozzle temp max ", specs.nozzle_temp_max, &m,
        c.nozzle_temp_min, c.nozzle_temp_max);
    check_temp(&mut warnings, "bed_temp_min", "Bed temp min ", specs.bed_temp_min, &m,
        c.bed_temp_min, c.bed_temp_max);
    check_temp(&mut warnings, "bed_temp_max", "Bed temp max ", specs.bed_temp_max, &m,
        c.bed_temp_min, c.bed_temp_max);
    let ghost w4 = warnings@.map_values(|w: ValidationWarning| w@);
    if let Some(r) = specs.retraction_distance_mm {
        if r < 0 || r > 15000 {
            let mut msg: Vec<char> = Vec::new();
            push_str(&mut msg, "Retraction distance ");
            let rv = milli_chars(r);
            push_all(&mut msg, &rv);
            push_str(&mut msg, "mm out of range (0-15mm)");
            warnings.push(warning("retraction_distance_mm", msg, rv));
        }
    }
    let ghost w5 = warnings@.map_values(|w: ValidationWarning| w@);
    if let Some(s) = specs.retraction_speed_mm_s {
        if s > 100 {
            let mut msg: Vec<char> = Vec::new();
            push_str(&mut msg, "Retraction speed ");
            let sv = decimal_chars(s as u64);
            push_all(&mut msg, &sv);
            push_str(&mut msg, "mm/s out of range (0-100mm/s)");
            warnings.push(warning("retraction_speed_mm_s", msg, sv));
        }
    }
    let ghost w6 = warnings@.map_values(|w: ValidationWarning| w@);
    if let Some(f) = specs.fan_speed_percent {
        if f > 100 {
            let mut msg: Vec<char> = Vec::new();
            push_str(&mut msg, "Fan speed ");
            let fv = decimal_chars(f as u64);
            push_all(&mut msg, &fv);
            push_str(&mut msg, "% out of range (0-100%)");
            warnings.push(warning("fan_speed_percent", msg, fv));
        }
    }
    let ghost w7 = warnings@.map_values(|w: ValidationWarning| w@);
    if let Some(d) = specs.diameter_mm {
        if d < 1000 || d > 3500 {
            let mut msg: Vec<char> = Vec::new();
            push_str(&mut msg, "Diameter ");
            let dv = milli_chars(d);
            push_all(&mut msg, &dv);
            push_str(&mut msg, "mm out of range (1.0-3.5mm)");
            warnings.push(warning("diameter_mm", msg, dv));
        }
    }
    let ghost w8 = warnings@.map_values(|w: ValidationWarning| w@);
    proof {
        let ghost rest_r = w5.skip(w4.len() as int);
        assert(w5 =~= w4 + w5.skip(w4.len() as int));
        assert(w6 =~= w5 + w6.skip(w5.len() as int));
        assert(w7 =~= w6 + w7.skip(w6.len() as int));
        assert(w8 =~= w7 + w8.skip(w7.len() as int));
    }
    proof {
        assert(warnings@.map_values(|w: ValidationWarning| w@) == expected_warnings(*specs));
        law_temperature_warnings(*specs);
        law_range_warnings(*specs);
    }
    warnings
}

/// Some warning concerns `field`.
pub open spec fn warns_on(ws: Seq<(Seq<char>, Seq<char>, Seq<char>)>, field: Seq<char>) -> bool {
    exists|i: int| 0 <= i < ws.len() && #[trigger] ws[i].0 == field
}

/// A temperature is given and lies outside `[lo, hi]`.
pub open spec fn out_of_range(v: Option<u16>, lo: u16, hi: u16) -> bool {
    v matches Some(t) && (t < lo || t > hi)
}

/// Each temperature field is warned about exactly when it is given and
/// lies outside the range the material's constraint table allows for it
/// (nozzle temperatures against the nozzle range, bed temperatures against
/// the bed range); the warning names the field and holds the value.
pub proof fn law_temperature_warnings(specs: FilamentSpecs)
    ensures
        ({
            let c = constraint_table(material_tag(specs.material@));
            let ws = expected_warnings(specs);
            &&& warns_on(ws, "nozzle_temp_min"@) <==> out_of_range(specs.nozzle_temp_min, c.0, c.1)
            &&& warns_on(ws, "nozzle_temp_max"@) <==> out_of_range(specs.nozzle_temp_max, c.0, c.1)
            &&& warns_on(ws, "bed_temp_min"@) <==> out_of_range(specs.bed_temp_min, c.2, c.3)
            &&& warns_on(ws, "bed_temp_max"@) <==> out_of_range(specs.bed_temp_max, c.2, c.3)
            &&& (specs.bed_temp_min is Some && out_of_range(specs.bed_temp_min, c.2, c.3) ==> exists|i: int|
                0 <= i < ws.len() && ws[i].0 == "bed_temp_min"@ && ws[i].2 == decimal(specs.bed_temp_min->0 as nat))
            &&& (specs.bed_temp_max is Some && out_of_range(specs.bed_temp_max, c.2, c.3) ==> exists|i: int|
                0 <= i < ws.len() && ws[i].0 == "bed_temp_max"@ && ws[i].2 == decimal(specs.bed_temp_max->0 as nat))
            &&& (specs.nozzle_temp_min is Some && out_of_range(specs.nozzle_temp_min, c.0, c.1) ==> exists|i: int|
                0 <= i < ws.len() && ws[i].0 == "nozzle_temp_min"@ && ws[i].2 == decimal(specs.nozzle_temp_min->0 as nat))
            &&& (specs.nozzle_temp_max is Some && out_of_range(specs.nozzle_temp_max, c.0, c.1) ==> exists|i: int|
                0 <= i < ws.len() && ws[i].0 == "nozzle_temp_max"@ && ws[i].2 == decimal(specs.nozzle_temp_max->0 as nat))
        }),
{
    reveal_strlit("nozzle_temp_min");
    reveal_strlit("nozzle_temp_max");
    reveal_strlit("bed_temp_min");
    reveal_strlit("bed_temp_max");
    reveal_strlit("retraction_distance_mm");
    reveal_strlit("retraction_speed_mm_s");
    reveal_strlit("fan_speed_percent");
    reveal_strlit("diameter_mm");
    assert("nozzle_temp_min"@.len() == 15);
    assert("nozzle_temp_max"@.len() == 15);
    assert("bed_temp_min"@.len() == 12);
    assert("bed_temp_max"@.len() == 12);
    assert("retraction_distance_mm"@.len() == 22);
    assert("retraction_speed_mm_s"@.len() == 21);
    assert("fan_speed_percent"@.len() == 17);
    assert("diameter_mm"@.len() == 11);
    assert("nozzle_temp_min"@[13] != "nozzle_temp_max"@[13]);
    assert("bed_temp_min"@[10] != "bed_temp_max"@[10]);
    let c = constraint_table(material_tag(specs.material@));
    let m = specs.material@;
    let a = temp_check("nozzle_temp_min"@, "Nozzle temp min "@, specs.nozzle_temp_min, m, c.0, c.1);
    let b = temp_check("nozzle_temp_max"@, "Nozzle temp max "@, specs.nozzle_temp_max, m, c.0, c.1);
    let d = temp_check("bed_temp_min"@, "Bed temp min "@, specs.bed_temp_min, m, c.2, c.3);
    let e = temp_check("bed_temp_max"@, "Bed temp max "@, specs.bed_temp_max, m, c.2, c.3);
    let ws = expected_warnings(specs);
    let head = a + b + d + e;
    let tail = ws.subrange(head.len() as int, ws.len() as int);
    assert(ws == head + tail);
    assert(tail.len() <= 4);
    assert forall|i: int| 0 <= i < tail.len() implies {
        let f = #[trigger] tail[i].0;
        f == "retraction_distance_mm"@ || f == "retraction_speed_mm_s"@ || f == "fan_speed_percent"@ || f == "diameter_mm"@
    } by {
        assert(tail[i] == ws[head.len() + i]);
    }
    assert forall|i: int| 0 <= i < a.len() implies #[trigger] a[i].0 == "nozzle_temp_min"@ by {}
    assert forall|i: int| 0 <= i < b.len() implies #[trigger] b[i].0 == "nozzle_temp_max"@ by {}
    assert forall|i: int| 0 <= i < d.len() implies #[trigger] d[i].0 == "bed_temp_min"@ by {}
    assert forall|i: int| 0 <= i < e.len() implies #[trigger] e[i].0 == "bed_temp_max"@ by {}
    assert forall|i: int| 0 <= i < ws.len() implies {
        let f = #[trigger] ws[i].0;
        &&& (f == "nozzle_temp_min"@ ==> 0 <= i < a.len() && ws[i] == a[i])
        &&& (f == "nozzle_temp_max"@ ==> a.len() <= i < a.len() + b.len() && ws[i] == b[i - a.len()])
        &&& (f == "bed_temp_min"@ ==> a.len() + b.len() <= i < a.len() + b.len() + d.len() && ws[i] == d[i - a.len() - b.len()])
        &&& (f == "bed_temp_max"@ ==> a.len() + b.len() + d.len() <= i < head.len() && ws[i] == e[i - a.len() - b.len() - d.len()])
    } by {
        if i < a.len() {
            assert(ws[i] == a[i]);
        } else if i < a.len() + b.len() {
            assert(ws[i] == b[i - a.len()]);
        } else if i < a.len() + b.len() + d.len() {
            assert(ws[i] == d[i - a.len() - b.len()]);
        } else if i < head.len() {
            assert(ws[i] == e[i - a.len() - b.len() - d.len()]);
        } else {
            assert(ws[i] == tail[i - head.len()]);
        }
    }
    if out_of_range(specs.nozzle_temp_min, c.0, c.1) {
        assert(ws[0] == a[0]);
        assert(ws[0].0 == "nozzle_temp_min"@);
    }
    if out_of_range(specs.nozzle_temp_max, c.0, c.1) {
        assert(ws[a.len() as int] == b[0]);
        assert(ws[a.len() as int].0 == "nozzle_temp_max"@);
    }
    if out_of_range(specs.bed_temp_min, c.2, c.3) {
        assert(ws[(a.len() + b.len()) as int] == d[0]);
        assert(ws[(a.len() + b.len()) as int].0 == "bed_temp_min"@);
    }
    if out_of_range(specs.bed_temp_max, c.2, c.3) {
        assert(ws[(a.len() + b.len() + d.len()) as int] == e[0]);
        assert(ws[(a.len() + b.len() + d.len()) as int].0 == "bed_temp_max"@);
    }
}

/// The other checks warn exactly when their value is out of range: a
/// retraction distance outside 0 to 15 mm, a retraction speed above
/// 100 mm/s, a fan speed above 100 % and a diameter outside 1.0 to 3.5 mm.
pub proof fn law_range_warnings(specs: FilamentSpecs)
    ensures
        ({
            let ws = expected_warnings(specs);
            &&& warns_on(ws, "retraction_distance_mm"@) <==> (specs.retraction_distance_mm is Some && (
            specs.retraction_distance_mm->0 < 0 || specs.retraction_distance_mm->0 > 15000))
            &&& warns_on(ws, "retraction_speed_mm_s"@) <==> (specs.retraction_speed_mm_s is Some
                && specs.retraction_speed_mm_s->0 > 100)
            &&& warns_on(ws, "fan_speed_percent"@) <==> (specs.fan_speed_percent is Some && specs.fan_speed_percent->0
                > 100)
            &&& warns_on(ws, "diameter_mm"@) <==> (specs.diameter_mm is Some && (specs.diameter_mm->0 < 1000
                || specs.diameter_mm->0 > 3500))
        }),
{
    reveal_strlit("nozzle_temp_min");
    reveal_strlit("nozzle_temp_max");
    reveal_strlit("bed_temp_min");
    reveal_strlit("bed_temp_max");
    reveal_strlit("retraction_distance_mm");
    reveal_strlit("retraction_speed_mm_s");
    reveal_strlit("fan_speed_percent");
    reveal_strlit("diameter_mm");
    assert("nozzle_temp_min"@.len() == 15);
    assert("nozzle_temp_max"@.len() == 15);
    assert("bed_temp_min"@.len() == 12);
    assert("bed_temp_max"@.len() == 12);
    assert("retraction_distance_mm"@.len() == 22);
    assert("retraction_speed_mm_s"@.len() == 21);
    assert("fan_speed_percent"@.len() == 17);
    assert("diameter_mm"@.len() == 11);
    let c = constraint_table(material_tag(specs.material@));
    let m = specs.material@;
    let head = temp_check("nozzle_temp_min"@, "Nozzle temp min "@, specs.nozzle_temp_min, m, c.0, c.1)
        + temp_check("nozzle_temp_max"@, "Nozzle temp max "@, specs.nozzle_temp_max, m, c.0, c.1)
        + temp_check("bed_temp_min"@, "Bed temp min "@, specs.bed_temp_min, m, c.2, c.3)
        + temp_check("bed_temp_max"@, "Bed temp max "@, specs.bed_temp_max, m, c.2, c.3);
    let f = match specs.retraction_distance_mm {
        Some(r) => if r < 0 || r > 15000 {
            seq![("retraction_distance_mm"@, "Retraction distance "@ + milli_text(r as int)
                + "mm out of range (0-15mm)"@, milli_text(r as int))]
        } else {
            Seq::empty()
        },
        None => Seq::empty(),
    };
    let g = match specs.retraction_speed_mm_s {
        Some(v) => if v > 100 {
            seq![("retraction_speed_mm_s"@, "Retraction speed "@ + decimal(v as nat)
                + "mm/s out of range (0-100mm/s)"@, decimal(v as nat))]
        } else {
            Seq::empty()
        },
        None => Seq::empty(),
    };
    let h = match specs.fan_speed_percent {
        Some(v) => if v > 100 {
            seq![("fan_speed_percent"@, "Fan speed "@ + decimal(v as nat)
                + "% out of range (0-100%)"@, decimal(v as nat))]
        } else {
            Seq::empty()
        },
        None => Seq::empty(),
    };
    let k = match specs.diameter_mm {
        Some(d) => if d < 1000 || d > 3500 {
            seq![("diameter_mm"@, "Diameter "@ + milli_text(d as int)
                + "mm out of range (1.0-3.5mm)"@, milli_text(d as int))]
        } else {
            Seq::empty()
        },
        None => Seq::empty(),
    };
    let ws = expected_warnings(specs);
    assert(ws == head + f + g + h + k);
    let n0 = head.len() as int;
    let n1 = n0 + f.len();
    let n2 = n1 + g.len();
    let n3 = n2 + h.len();
    assert forall|i: int| 0 <= i < head.len() implies {
        let x = #[trigger] head[i].0;
        x == "nozzle_temp_min"@ || x == "nozzle_temp_max"@ || x == "bed_temp_min"@ || x == "bed_temp_max"@
    } by {
        let a = temp_check("nozzle_temp_min"@, "Nozzle temp min "@, specs.nozzle_temp_min, m, c.0, c.1);
        let b = temp_check("nozzle_temp_max"@, "Nozzle temp max "@, specs.nozzle_temp_max, m, c.0, c.1);
        let d = temp_check("bed_temp_min"@, "Bed temp min "@, specs.bed_temp_min, m, c.2, c.3);
        let e = temp_check("bed_temp_max"@, "Bed temp max "@, specs.bed_temp_max, m, c.2, c.3);
        if i < a.len() {
            assert(head[i] == a[i]);
        } else if i < a.len() + b.len() {
            assert(head[i] == b[i - a.len()]);
        } else if i < a.len() + b.len() + d.len() {
            assert(head[i] == d[i - a.len() - b.len()]);
        } else {
            assert(head[i] == e[i - a.len() - b.len() - d.len()]);
        }
    }
    assert forall|i: int| 0 <= i < ws.len() implies {
        let x = #[trigger] ws[i].0;
        &&& (x == "retraction_distance_mm"@ ==> n0 <= i < n1 && ws[i] == f[i - n0])
        &&& (x == "retraction_speed_mm_s"@ ==> n1 <= i < n2 && ws[i] == g[i - n1])
        &&& (x == "fan_speed_percent"@ ==> n2 <= i < n3 && ws[i] == h[i - n2])
        &&& (x == "diameter_mm"@ ==> n3 <= i < ws.len() && ws[i] == k[i - n3])
    } by {
        if i < n0 {
            assert(ws[i] == head[i]);
        } else if i < n1 {
            assert(ws[i] == f[i - n0]);
        } else if i < n2 {
            assert(ws[i] == g[i - n1]);
        } else if i < n3 {
            assert(ws[i] == h[i - n2]);
        } else {
            assert(ws[i] == k[i - n3]);
        }
    }
    if f.len() > 0 {
        assert(ws[n0] == f[0]);
        assert(ws[n0].0 == "retraction_distance_mm"@);
    }
    if g.len() > 0 {
        assert(ws[n1] == g[0]);
        assert(ws[n1].0 == "retraction_speed_mm_s"@);
    }
    if h.len() > 0 {
        assert(ws[n2] == h[0]);
        assert(ws[n2].0 == "fan_speed_percent"@);
    }
    if k.len() > 0 {
        assert(ws[n3] == k[0]);
        assert(ws[n3].0 == "diameter_mm"@);
    }
}

} // verus!
