//! Construction and validation of current-sheet parameter sets.
//!
//! A current-sheet field is configured either by the named preset
//! `"CON2020"` or by `"Custom"` with an explicit key/value list holding
//! all seven parameters.  The numeric values are opaque scalars here; the
//! verified layer settles which construction succeeds, which error comes
//! back otherwise, and which value lands in which slot.

use vstd::prelude::*;
use crate::text::str_eq;

verus! {

/// Why constructing a current-sheet field fails.
#[derive(Clone, Copy, PartialEq, Eq, Structural, Debug)]
pub enum SheetError {
    /// The field type is neither `"CON2020"` nor `"Custom"`.
    UnknownFieldType,
    /// `"Custom"` was asked for without all seven required parameters.
    MissingParameter,
}

impl SheetError {
    /// The description [`SheetError::message`] returns for each variant.
    pub open spec fn message_spec(&self) -> Seq<char> {
        match *self {
            SheetError::UnknownFieldType => "unknown field type: supported (CON2020, Custom)"@,
            SheetError::MissingParameter => "custom field type requires all seven parameters"@,
        }
    }

    /// A short description of the error, in place of a display impl.
    pub fn message(&self) -> (r: String)
        ensures
            r@ == self.message_spec(),
    {
        match *self {
            SheetError::UnknownFieldType => {
                "unknown field type: supported (CON2020, Custom)".to_owned()
            },
            SheetError::MissingParameter => {
                "custom field type requires all seven parameters".to_owned()
            },
        }
    }
}

/// The parameter set of the axisymmetric current-sheet model: inner and
/// outer sheet radii, half-thickness, current constant, the two dipole
/// tilt angles, and the radial-current constant.
#[derive(Clone, Copy, PartialEq, Debug)]
pub struct SheetParams<T> {
    /// Inner sheet radius, planetary radii.
    pub r_0: T,
    /// Outer sheet radius; a non-finite value means no outer subtraction.
    pub r_1: T,
    /// Sheet half-thickness, planetary radii.
    pub d: T,
    /// Current constant, nT.
    pub mu0_i_2: T,
    /// Dipole tilt angle about the y axis, radians.
    pub theta_d: T,
    /// Dipole tilt angle about the z axis, radians.
    pub phi_d: T,
    /// Radial-current constant.
    pub i_rho: T,
}

/// The value of the first entry whose key equals `key`, if any.
pub open spec fn lookup<T>(entries: Seq<(String, T)>, key: Seq<char>) -> Option<T>
    decreases entries.len(),
{
    if entries.len() == 0 {
        None
    } else if entries[0].0@ == key {
        Some(entries[0].1)
    } else {
        lookup(entries.drop_first(), key)
    }
}

/// Finds the value stored under `key`, exactly as [`lookup`] states.
pub fn find_param<T: Copy>(entries: &Vec<(String, T)>, key: &str) -> (r: Option<T>)
    ensures
        r == lookup(entries@, key@),
{
    let n: usize = entries.len();
    let mut i: usize = 0;
    proof {
        assert(entries@.skip(0) =~= entries@);
    }
    while i < n
        invariant
            i <= n,
            n == entries@.len(),
            lookup(entries@, key@) == lookup(entries@.skip(i as int), key@),
        decreases n - i,
    {
        if str_eq(entries[i].0.as_str(), key) {
            proof {
                assert(entries@.skip(i as int)[0] == entries@[i as int]);
            }
            return Some(entries[i].1);
        }
        proof {
            assert(entries@.skip(i as int)[0] == entries@[i as int]);
            assert(entries@.skip(i as int).drop_first() =~= entries@.skip(i as int + 1));
        }
        i = i + 1;
    }
    proof {
        assert(entries@.skip(n as int) =~= Seq::<(String, T)>::empty());
    }
    None
}

/// A lookup misses exactly when no entry carries the key; when it hits,
/// it returns the value of the first entry that does.  Through
/// [`custom_from`], the missing-parameter error therefore comes if and
/// only if some required key is absent from the list.
pub proof fn lemma_lookup_characterization<T>(entries: Seq<(String, T)>, key: Seq<char>)
    ensures
        lookup(entries, key) is None <==> (forall|i: int|
            0 <= i < entries.len() ==> (#[trigger] entries[i]).0@ != key),
        lookup(entries, key) is Some ==> exists|i: int|
            {
                &&& 0 <= i < entries.len()
                &&& (#[trigger] entries[i]).0@ == key
                &&& entries[i].1 == lookup(entries, key)->0
                &&& forall|j: int| 0 <= j < i ==> (#[trigger] entries[j]).0@ != key
            },
    decreases entries.len(),
{
    if entries.len() == 0 {
    } else if entries[0].0@ == key {
        let i: int = 0;
        assert({
            &&& 0 <= i < entries.len()
            &&& entries[i].0@ == key
            &&& entries[i].1 == lookup(entries, key)->0
            &&& forall|j: int| 0 <= j < i ==> (#[trigger] entries[j]).0@ != key
        });
    } else {
        let rest = entries.drop_first();
        lemma_lookup_characterization(rest, key);
        assert(forall|i: int| 0 <= i < rest.len() ==> rest[i] == entries[i + 1]);
        if lookup(entries, key) is None {
            assert forall|i: int| 0 <= i < entries.len() implies (#[trigger] entries[i]).0@
                != key by {
                if i > 0 {
                    assert(entries[i] == rest[i - 1]);
                }
            }
        } else {
            let w: int = choose|w: int|
                {
                    &&& 0 <= w < rest.len()
                    &&& (#[trigger] rest[w]).0@ == key
                    &&& rest[w].1 == lookup(rest, key)->0
                    &&& forall|j: int| 0 <= j < w ==> (#[trigger] rest[j]).0@ != key
                };
            let i: int = w + 1;
            assert(entries[i] == rest[w]);
            assert forall|j: int| 0 <= j < i implies (#[trigger] entries[j]).0@ != key by {
                if j > 0 {
                    assert(entries[j] == rest[j - 1]);
                }
            }
            assert({
                &&& 0 <= i < entries.len()
                &&& entries[i].0@ == key
                &&& entries[i].1 == lookup(entries, key)->0
                &&& forall|j: int| 0 <= j < i ==> (#[trigger] entries[j]).0@ != key
            });
        }
    }
}

/// What a `"Custom"` construction yields from a key/value list: the
/// parameter set read out of the seven required keys, or the
/// missing-parameter error when any of them is absent.
pub open spec fn custom_from<T>(entries: Seq<(String, T)>) -> Result<SheetParams<T>, SheetError> {
    let r_0 = lookup(entries, "r_0"@);
    let r_1 = lookup(entries, "r_1"@);
    let d = lookup(entries, "d"@);
    let mu0_i_2 = lookup(entries, "mu0_i_2"@);
    let theta_d = lookup(entries, "theta_d"@);
    let phi_d = lookup(entries, "phi_d"@);
    let i_rho = lookup(entries, "i_rho"@);
    if r_0 is Some && r_1 is Some && d is Some && mu0_i_2 is Some && theta_d is Some
        && phi_d is Some && i_rho is Some {
        Ok(
            (SheetParams {
                r_0: r_0->0,
                r_1: r_1->0,
                d: d->0,
                mu0_i_2: mu0_i_2->0,
                theta_d: theta_d->0,
                phi_d: phi_d->0,
                i_rho: i_rho->0,
            }),
        )
    } else {
        Err(SheetError::MissingParameter)
    }
}

/// Builds a `"Custom"` parameter set from a key/value list.
pub fn build_custom<T: Copy>(entries: &Vec<(String, T)>) -> (r: Result<
    SheetParams<T>,
    SheetError,
>)
    ensures
        r == custom_from(entries@),
{
    let r_0 = find_param(entries, "r_0");
    let r_1 = find_param(entries, "r_1");
    let d = find_param(entries, "d");
    let mu0_i_2 = find_param(entries, "mu0_i_2");
    let theta_d = find_param(entries, "theta_d");
    let phi_d = find_param(entries, "phi_d");
    let i_rho = find_param(entries, "i_rho");
    match (r_0, r_1, d, mu0_i_2, theta_d, phi_d, i_rho) {
        (Some(r_0), Some(r_1), Some(d), Some(mu0_i_2), Some(theta_d), Some(phi_d), Some(i_rho)) => {
            Ok(SheetParams { r_0, r_1, d, mu0_i_2, theta_d, phi_d, i_rho })
        },
        _ => Err(SheetError::MissingParameter),
    }
}

/// The seven parameter keys differ pairwise, so a list that holds each
/// exactly once answers every lookup with its own entry.
proof fn lemma_param_keys_distinct()
    ensures
        "r_0"@ != "r_1"@,
        "r_0"@ != "d"@,
        "r_0"@ != "mu0_i_2"@,
        "r_0"@ != "theta_d"@,
        "r_0"@ != "phi_d"@,
        "r_0"@ != "i_rho"@,
        "r_1"@ != "d"@,
        "r_1"@ != "mu0_i_2"@,
        "r_1"@ != "theta_d"@,
        "r_1"@ != "phi_d"@,
        "r_1"@ != "i_rho"@,
        "d"@ != "mu0_i_2"@,
        "d"@ != "theta_d"@,
        "d"@ != "phi_d"@,
        "d"@ != "i_rho"@,
        "mu0_i_2"@ != "theta_d"@,
        "mu0_i_2"@ != "phi_d"@,
        "mu0_i_2"@ != "i_rho"@,
        "theta_d"@ != "phi_d"@,
        "theta_d"@ != "i_rho"@,
        "phi_d"@ != "i_rho"@,
{
    reveal_strlit("r_0");
    reveal_strlit("r_1");
    reveal_strlit("d");
    reveal_strlit("mu0_i_2");
    reveal_strlit("theta_d");
    reveal_strlit("phi_d");
    reveal_strlit("i_rho");
    assert("r_0"@ != "r_1"@) by {
        assert("r_0"@[2] != "r_1"@[2]);
    }
    assert("mu0_i_2"@ != "theta_d"@) by {
        assert("mu0_i_2"@[0] != "theta_d"@[0]);
    }
    assert("phi_d"@ != "i_rho"@) by {
        assert("phi_d"@[0] != "i_rho"@[0]);
    }
    assert("r_0"@ != "d"@ && "r_1"@ != "d"@) by {
        assert("r_0"@.len() != "d"@.len() && "r_1"@.len() != "d"@.len());
    }
    assert("r_0"@ != "mu0_i_2"@ && "r_0"@ != "theta_d"@ && "r_0"@ != "phi_d"@ && "r_0"@
        != "i_rho"@) by {
        assert("r_0"@.len() == 3 && "mu0_i_2"@.len() == 7 && "theta_d"@.len() == 7 && "phi_d"@.len()
            == 5 && "i_rho"@.len() == 5);
    }
    assert("r_1"@ != "mu0_i_2"@ && "r_1"@ != "theta_d"@ && "r_1"@ != "phi_d"@ && "r_1"@
        != "i_rho"@) by {
        assert("r_1"@.len() == 3 && "mu0_i_2"@.len() == 7 && "theta_d"@.len() == 7 && "phi_d"@.len()
            == 5 && "i_rho"@.len() == 5);
    }
    assert("d"@ != "mu0_i_2"@ && "d"@ != "theta_d"@ && "d"@ != "phi_d"@ && "d"@ != "i_rho"@) by {
        assert("d"@.len() == 1 && "mu0_i_2"@.len() == 7 && "theta_d"@.len() == 7 && "phi_d"@.len()
            == 5 && "i_rho"@.len() == 5);
    }
    assert("mu0_i_2"@ != "phi_d"@ && "mu0_i_2"@ != "i_rho"@ && "theta_d"@ != "phi_d"@ && "theta_d"@
        != "i_rho"@) by {
        assert("mu0_i_2"@.len() == 7 && "theta_d"@.len() == 7 && "phi_d"@.len() == 5
            && "i_rho"@.len() == 5);
    }
}

impl<T: Copy> SheetParams<T> {
    /// The effective parameter set as a key/value list, one entry per
    /// parameter, under the same keys a `"Custom"` construction reads.
    /// Feeding the list back through that construction returns this very
    /// parameter set.
    pub fn to_pairs(&self) -> (r: Vec<(String, T)>)
        ensures
            r@.len() == 7,
            r@[0].0@ == "r_0"@ && r@[0].1 == self.r_0,
            r@[1].0@ == "r_1"@ && r@[1].1 == self.r_1,
            r@[2].0@ == "d"@ && r@[2].1 == self.d,
            r@[3].0@ == "mu0_i_2"@ && r@[3].1 == self.mu0_i_2,
            r@[4].0@ == "theta_d"@ && r@[4].1 == self.theta_d,
            r@[5].0@ == "phi_d"@ && r@[5].1 == self.phi_d,
            r@[6].0@ == "i_rho"@ && r@[6].1 == self.i_rho,
            custom_from(r@) == Ok::<SheetParams<T>, SheetError>(*self),
    {
        let mut r: Vec<(String, T)> = Vec::new();
        r.push(("r_0".to_owned(), self.r_0));
        r.push(("r_1".to_owned(), self.r_1));
        r.push(("d".to_owned(), self.d));
        r.push(("mu0_i_2".to_owned(), self.mu0_i_2));
        r.push(("theta_d".to_owned(), self.theta_d));
        r.push(("phi_d".to_owned(), self.phi_d));
        r.push(("i_rho".to_owned(), self.i_rho));
        proof {
            lemma_param_keys_distinct();
            lemma_lookup_each_key(r@, *self);
        }
        r
    }
}

/// Unfolds [`lookup`] over a seven-entry list that carries the parameter
/// keys in the order [`SheetParams::to_pairs`] emits them.
proof fn lemma_lookup_each_key<T>(entries: Seq<(String, T)>, p: SheetParams<T>)
    requires
        entries.len() == 7,
        entries[0].0@ == "r_0"@ && entries[0].1 == p.r_0,
        entries[1].0@ == "r_1"@ && entries[1].1 == p.r_1,
        entries[2].0@ == "d"@ && entries[2].1 == p.d,
        entries[3].0@ == "mu0_i_2"@ && entries[3].1 == p.mu0_i_2,
        entries[4].0@ == "theta_d"@ && entries[4].1 == p.theta_d,
        entries[5].0@ == "phi_d"@ && entries[5].1 == p.phi_d,
        entries[6].0@ == "i_rho"@ && entries[6].1 == p.i_rho,
    ensures
        custom_from(entries) == Ok::<SheetParams<T>, SheetError>(p),
{
    lemma_param_keys_distinct();
    reveal_with_fuel(lookup, 9);
    let t1 = entries.drop_first();
    let t2 = t1.drop_first();
    let t3 = t2.drop_first();
    let t4 = t3.drop_first();
    let t5 = t4.drop_first();
    let t6 = t5.drop_first();
    assert(t1.len() == 6 && t1[0] == entries[1]);
    assert(t2.len() == 5 && t2[0] == entries[2]);
    assert(t3.len() == 4 && t3[0] == entries[3]);
    assert(t4.len() == 3 && t4[0] == entries[4]);
    assert(t5.len() == 2 && t5[0] == entries[5]);
    assert(t6.len() == 1 && t6[0] == entries[6]);
    assert(lookup(entries, "r_0"@) == Some(p.r_0));
    assert(lookup(entries, "r_1"@) == Some(p.r_1));
    assert(lookup(entries, "d"@) == Some(p.d));
    assert(lookup(entries, "mu0_i_2"@) == Some(p.mu0_i_2));
    assert(lookup(entries, "theta_d"@) == Some(p.theta_d));
    assert(lookup(entries, "phi_d"@) == Some(p.phi_d));
    assert(lookup(entries, "i_rho"@) == Some(p.i_rho));
}

/// Resolves a field type and optional key/value list to a parameter set:
/// `"CON2020"` takes the caller's preset values unchanged and ignores the
/// list; `"Custom"` requires the list with all seven keys; any other name
/// is rejected.
pub fn resolve_current_sheet<T: Copy>(
    field_type: &str,
    params: Option<&Vec<(String, T)>>,
    preset: &SheetParams<T>,
) -> (r: Result<SheetParams<T>, SheetError>)
    ensures
        field_type@ == "CON2020"@ ==> r == Ok::<SheetParams<T>, SheetError>(*preset),
        field_type@ == "Custom"@ ==> (match params {
            Some(entries) => r == custom_from(entries@),
            None => r == Err::<SheetParams<T>, SheetError>(SheetError::MissingParameter),
        }),
        field_type@ != "CON2020"@ && field_type@ != "Custom"@ ==> r == Err::<
            SheetParams<T>,
            SheetError,
        >(SheetError::UnknownFieldType),
{
    proof {
        reveal_strlit("CON2020");
        reveal_strlit("Custom");
        assert("CON2020"@ != "Custom"@) by {
            assert("CON2020"@.len() != "Custom"@.len());
        }
    }
    if str_eq(field_type, "CON2020") {
        Ok(*preset)
    } else if str_eq(field_type, "Custom") {
        match params {
            Some(entries) => build_custom(entries),
            None => Err(SheetError::MissingParameter),
        }
    } else {
        Err(SheetError::UnknownFieldType)
    }
}

} // verus!
