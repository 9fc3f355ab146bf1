//! The constraint synthesis protocol: replays an assignment's variables,
//! constraints and lookup data into a freshly created target system.
//!
//! The protocol allocates the public variables in ascending index order (the
//! target slot is the source index plus one, for the implicit constant-one
//! slot), then the private variables (slots align exactly), converts every
//! linear combination through the recorded translation table, enforces the
//! constraints, registers the lookup tables, and enforces the lookup
//! constraints — the one step whose failure propagates as an error.

use vstd::prelude::*;

use crate::assignment::Assignment;
use crate::field::FieldValue;
use crate::linear_combination::AssignmentLC;
use crate::lookup::LookupTable;
use crate::ordered_map::{input_map_entries, input_map_get_index, input_map_len,
    term_map_get_index, term_map_len, InputMap};
use crate::target::{SynthesisError, TargetLinearCombination, TargetSystem, TargetVariable};
use crate::variable::AssignmentVariable;

verus! {

/// The target term a source term converts to: a public index shifts up by
/// one to step over the implicit constant-one slot; a private index maps
/// across unchanged. A constant identity never reaches conversion in a
/// well-formed assignment; its image here is immaterial.
pub open spec fn spec_convert_term(t: (AssignmentVariable, FieldValue)) -> (
    TargetVariable,
    FieldValue,
) {
    match t.0 {
        AssignmentVariable::Constant(_) => (TargetVariable::Public(0), t.1),
        AssignmentVariable::Public(j) => (TargetVariable::Public((j + 1) as usize), t.1),
        AssignmentVariable::Private(j) => (TargetVariable::Private(j as usize), t.1),
    }
}

/// The conversion of a term sequence, term by term.
pub open spec fn spec_convert_terms(terms: Seq<(AssignmentVariable, FieldValue)>) -> Seq<
    (TargetVariable, FieldValue),
> {
    terms.map_values(|t: (AssignmentVariable, FieldValue)| spec_convert_term(t))
}

/// The converted form of a whole linear combination: every term converted in
/// order, then the constant, when nonzero, appended as a coefficient on the
/// constant-one public slot.
pub open spec fn spec_convert_lc(lc: AssignmentLC) -> Seq<(TargetVariable, FieldValue)> {
    let mapped = spec_convert_terms(lc.spec_terms());
    if lc.spec_constant() == FieldValue::spec_zero() {
        mapped
    } else {
        mapped.push((TargetVariable::Public(0), lc.spec_constant()))
    }
}

/// The values of an `(index, value)` pair sequence, in order.
pub open spec fn spec_values(pairs: Seq<(u64, FieldValue)>) -> Seq<FieldValue> {
    pairs.map_values(|t: (u64, FieldValue)| t.1)
}

/// The converted forms of a sequence of constraint triples.
pub open spec fn spec_converted_triples(cs: Seq<(AssignmentLC, AssignmentLC, AssignmentLC)>) -> Seq<
    (Seq<(TargetVariable, FieldValue)>, Seq<(TargetVariable, FieldValue)>, Seq<
        (TargetVariable, FieldValue),
    >),
> {
    cs.map_values(
        |c: (AssignmentLC, AssignmentLC, AssignmentLC)|
            (spec_convert_lc(c.0), spec_convert_lc(c.1), spec_convert_lc(c.2)),
    )
}

/// The converted forms of a sequence of lookup constraints.
pub open spec fn spec_converted_lookups(
    cs: Seq<(AssignmentLC, AssignmentLC, AssignmentLC, usize)>,
) -> Seq<
    (Seq<(TargetVariable, FieldValue)>, Seq<(TargetVariable, FieldValue)>, Seq<
        (TargetVariable, FieldValue),
    >, int),
> {
    cs.map_values(
        |c: (AssignmentLC, AssignmentLC, AssignmentLC, usize)|
            (spec_convert_lc(c.0), spec_convert_lc(c.1), spec_convert_lc(c.2), c.3 as int),
    )
}

/// The row views of a table sequence.
pub open spec fn spec_table_views(tables: Seq<LookupTable>) -> Seq<
    Seq<(FieldValue, FieldValue, FieldValue)>,
> {
    tables.map_values(|t: LookupTable| t.spec_rows())
}

/// Every lookup constraint names a registered table.
pub open spec fn spec_lookup_refs_valid(
    lookups: Seq<(AssignmentLC, AssignmentLC, AssignmentLC, usize)>,
    num_tables: int,
) -> bool {
    forall|k: int| 0 <= k < lookups.len() ==> (#[trigger] lookups[k]).3 < num_tables
}

/// The position of the first lookup constraint naming an unregistered table,
/// or the length when every reference is valid.
pub open spec fn spec_first_invalid_lookup(
    lookups: Seq<(AssignmentLC, AssignmentLC, AssignmentLC, usize)>,
    num_tables: int,
) -> int
    decreases lookups.len(),
{
    if lookups.len() == 0 {
        0
    } else if lookups[0].3 >= num_tables {
        0
    } else {
        1 + spec_first_invalid_lookup(lookups.drop_first(), num_tables)
    }
}

/// When the first `k` references are valid and the one at `k` (if any) is
/// not, `k` is the first invalid position.
proof fn lemma_first_invalid_lookup(
    lookups: Seq<(AssignmentLC, AssignmentLC, AssignmentLC, usize)>,
    num_tables: int,
    k: int,
)
    requires
        0 <= k <= lookups.len(),
        forall|j: int| 0 <= j < k ==> (#[trigger] lookups[j]).3 < num_tables,
        k < lookups.len() ==> lookups[k].3 >= num_tables,
    ensures
        spec_first_invalid_lookup(lookups, num_tables) == k,
    decreases k,
{
    if k == 0 {
    } else {
        let rest = lookups.drop_first();
        assert forall|j: int| 0 <= j < k - 1 implies (#[trigger] rest[j]).3 < num_tables by {
            assert(rest[j] == lookups[j + 1]);
        }
        if k - 1 < rest.len() {
            assert(rest[k - 1] == lookups[k]);
        }
        lemma_first_invalid_lookup(rest, num_tables, k - 1);
    }
}

/// The translation table from source variable index to allocated target
/// variable, recorded while the variables are allocated.
struct Converter {
    public: Vec<TargetVariable>,
    private: Vec<TargetVariable>,
}

impl Converter {
    /// Every recorded public variable sits one slot above its source index;
    /// every recorded private variable sits at its source index.
    spec fn wf(self) -> bool {
        &&& forall|j: int|
            0 <= j < self.public@.len() ==> (#[trigger] self.public@[j]) == TargetVariable::Public(
                (j + 1) as usize,
            )
        &&& forall|j: int|
            0 <= j < self.private@.len() ==> (#[trigger] self.private@[j])
                == TargetVariable::Private(j as usize)
    }
}

/// Converts one linear combination to the target system through the
/// translation table, re-validating the recorded slot of each variable.
#[verifier::loop_isolation(false)]
fn convert_lc(lc: &AssignmentLC, converter: &Converter) -> (r: TargetLinearCombination)
    requires
        converter.wf(),
        lc.wf(converter.public@.len() as int, converter.private@.len() as int),
    ensures
        r.spec_terms() == spec_convert_lc(*lc),
        r.wf(),
{
    let mut out: Vec<(TargetVariable, FieldValue)> = Vec::new();
    let n = term_map_len(&lc.terms);
    assert(lc.spec_terms().take(0) =~= Seq::<(AssignmentVariable, FieldValue)>::empty());
    assert(out@ =~= spec_convert_terms(lc.spec_terms().take(0)));
    for i in 0..n
        invariant
            n == lc.spec_terms().len(),
            converter.wf(),
            lc.wf(converter.public@.len() as int, converter.private@.len() as int),
            out@ == spec_convert_terms(lc.spec_terms().take(i as int)),
    {
        let entry = term_map_get_index(&lc.terms, i);
        let (variable, coefficient) = entry.unwrap();
        assert((variable, coefficient) == lc.spec_terms()[i as int]);
        let converted: (TargetVariable, FieldValue) = match variable {
            AssignmentVariable::Constant(_) => {
                proof {
                    assert(false);
                }
                vstd::pervasive::unreached()
            },
            AssignmentVariable::Public(index) => {
                let table_len = converter.public.len();
                assert(index < table_len as u64);
                let gadget = converter.public[index as usize];
                assert(gadget == converter.public@[index as int]);
                assert(gadget == TargetVariable::Public((index + 1) as usize));
                (gadget, coefficient)
            },
            AssignmentVariable::Private(index) => {
                let table_len = converter.private.len();
                assert(index < table_len as u64);
                let gadget = converter.private[index as usize];
                assert(gadget == converter.private@[index as int]);
                assert(gadget == TargetVariable::Private(index as usize));
                (gadget, coefficient)
            },
        };
        out.push(converted);
        proof {
            assert(converted == spec_convert_term(lc.spec_terms()[i as int]));
            assert(spec_convert_terms(lc.spec_terms().take(i + 1)) =~= spec_convert_terms(
                lc.spec_terms().take(i as int),
            ).push(spec_convert_term(lc.spec_terms()[i as int])));
        }
    }
    assert(lc.spec_terms().take(n as int) =~= lc.spec_terms());
    let constant = lc.constant();
    if !constant.is_zero() {
        out.push((TargetVariable::Public(0), constant));
    }
    let r = TargetLinearCombination { terms: out };
    proof {
        assert(r.spec_terms() == spec_convert_lc(*lc));
        assert forall|i: int| 0 <= i < r.terms@.len() implies (#[trigger] r.terms@[i]).1.wf() by {
            let mapped = spec_convert_terms(lc.spec_terms());
            if i < mapped.len() {
                assert(r.terms@[i] == spec_convert_term(lc.spec_terms()[i]));
                assert((lc.spec_terms()[i]).1.wf());
            } else {
                assert(r.terms@[i] == (TargetVariable::Public(0), lc.spec_constant()));
            }
        }
    }
    r
}

/// Replays resolved variable values and the structural data of `base` into a
/// fresh target system: the synthesis protocol shared by both assignment
/// kinds.
#[verifier::loop_isolation(false)]
pub(crate) fn synthesize_into(
    public: &InputMap,
    private: &InputMap,
    base: &Assignment,
    cs: &mut TargetSystem,
) -> (r: Result<(), SynthesisError>)
    requires
        old(cs).is_fresh(),
        old(cs).wf(),
        base.wf(),
        forall|i: int|
            0 <= i < input_map_entries(*public).len() ==> (#[trigger] input_map_entries(
                *public,
            )[i]).0 == i && input_map_entries(*public)[i].1.wf(),
        forall|i: int|
            0 <= i < input_map_entries(*private).len() ==> (#[trigger] input_map_entries(
                *private,
            )[i]).0 == i && input_map_entries(*private)[i].1.wf(),
        input_map_entries(*public).len() == base.spec_public().len(),
        input_map_entries(*private).len() == base.spec_private().len(),
    ensures
        final(cs).spec_public() == seq![FieldValue::spec_one()] + spec_values(
            input_map_entries(*public),
        ),
        final(cs).spec_private() == spec_values(input_map_entries(*private)),
        final(cs).spec_constraints() == spec_converted_triples(base.constraints@),
        final(cs).spec_tables() == spec_table_views(base.tables@),
        r is Ok <==> spec_lookup_refs_valid(base.lookup_constraints@, base.tables@.len() as int),
        r is Ok ==> final(cs).spec_lookup_constraints() == spec_converted_lookups(
            base.lookup_constraints@,
        ),
        r is Err ==> r == Err::<(), SynthesisError>(SynthesisError::MissingLookupTable)
            && final(cs).spec_lookup_constraints() == spec_converted_lookups(
            base.lookup_constraints@.take(
                spec_first_invalid_lookup(base.lookup_constraints@, base.tables@.len() as int),
            ),
        ),
        final(cs).wf(),
{
    let ghost public_entries = input_map_entries(*public);
    let ghost private_entries = input_map_entries(*private);

    // Allocate the public variables, in ascending index order.
    let mut converter_public: Vec<TargetVariable> = Vec::new();
    let np = input_map_len(public);
    assert(spec_values(public_entries.take(0)) =~= Seq::<FieldValue>::empty());
    assert(cs.spec_public() =~= seq![FieldValue::spec_one()] + spec_values(
        public_entries.take(0),
    ));
    for i in 0..np
        invariant
            np == public_entries.len(),
            public_entries == input_map_entries(*public),
            forall|j: int|
                0 <= j < public_entries.len() ==> (#[trigger] public_entries[j]).0 == j
                    && public_entries[j].1.wf(),
            cs.spec_public() == seq![FieldValue::spec_one()] + spec_values(
                public_entries.take(i as int),
            ),
            cs.private == old(cs).private,
            cs.constraints == old(cs).constraints,
            cs.tables == old(cs).tables,
            cs.lookup_constraints == old(cs).lookup_constraints,
            cs.wf(),
            converter_public@.len() == i,
            forall|j: int|
                0 <= j < i ==> (#[trigger] converter_public@[j]) == TargetVariable::Public(
                    (j + 1) as usize,
                ),
    {
        let entry = input_map_get_index(public, i);
        let (index, value) = entry.unwrap();
        assert(index == i as u64);
        let gadget = cs.alloc_input(value);
        assert(gadget == TargetVariable::Public((index + 1) as usize));
        converter_public.push(gadget);
        proof {
            assert(spec_values(public_entries.take(i + 1)) =~= spec_values(
                public_entries.take(i as int),
            ).push(value));
            assert(cs.spec_public() =~= seq![FieldValue::spec_one()] + spec_values(
                public_entries.take(i + 1),
            ));
        }
    }
    assert(public_entries.take(np as int) =~= public_entries);

    // Allocate the private variables; slots align with no offset.
    let mut converter_private: Vec<TargetVariable> = Vec::new();
    let nr = input_map_len(private);
    assert(spec_values(private_entries.take(0)) =~= Seq::<FieldValue>::empty());
    for i in 0..nr
        invariant
            nr == private_entries.len(),
            private_entries == input_map_entries(*private),
            forall|j: int|
                0 <= j < private_entries.len() ==> (#[trigger] private_entries[j]).0 == j
                    && private_entries[j].1.wf(),
            cs.spec_public() == seq![FieldValue::spec_one()] + spec_values(public_entries),
            cs.spec_private() == spec_values(private_entries.take(i as int)),
            cs.constraints == old(cs).constraints,
            cs.tables == old(cs).tables,
            cs.lookup_constraints == old(cs).lookup_constraints,
            cs.wf(),
            converter_private@.len() == i,
            forall|j: int|
                0 <= j < i ==> (#[trigger] converter_private@[j]) == TargetVariable::Private(
                    j as usize,
                ),
    {
        let entry = input_map_get_index(private, i);
        let (index, value) = entry.unwrap();
        assert(index == i as u64);
        let gadget = cs.alloc_private(value);
        assert(gadget == TargetVariable::Private(index as usize));
        converter_private.push(gadget);
        proof {
            assert(spec_values(private_entries.take(i + 1)) =~= spec_values(
                private_entries.take(i as int),
            ).push(value));
        }
    }
    assert(private_entries.take(nr as int) =~= private_entries);

    let converter = Converter { public: converter_public, private: converter_private };

    // Enforce all of the constraints.
    let nc = base.constraints.len();
    assert(cs.spec_constraints() =~= spec_converted_triples(base.constraints@.take(0)));
    for k in 0..nc
        invariant
            nc == base.constraints@.len(),
            base.wf(),
            converter.wf(),
            converter.public@.len() == base.spec_public().len(),
            converter.private@.len() == base.spec_private().len(),
            cs.spec_public() == seq![FieldValue::spec_one()] + spec_values(public_entries),
            cs.spec_private() == spec_values(private_entries),
            cs.spec_constraints() == spec_converted_triples(base.constraints@.take(k as int)),
            cs.tables == old(cs).tables,
            cs.lookup_constraints == old(cs).lookup_constraints,
            cs.wf(),
    {
        let triple = &base.constraints[k];
        let a = convert_lc(&triple.0, &converter);
        let b = convert_lc(&triple.1, &converter);
        let c = convert_lc(&triple.2, &converter);
        cs.enforce(a, b, c);
        proof {
            assert(spec_converted_triples(base.constraints@.take(k + 1)) =~= spec_converted_triples(
                base.constraints@.take(k as int),
            ).push(
                (
                    spec_convert_lc(base.constraints@[k as int].0),
                    spec_convert_lc(base.constraints@[k as int].1),
                    spec_convert_lc(base.constraints@[k as int].2),
                ),
            ));
            assert(cs.spec_constraints() =~= spec_converted_triples(
                base.constraints@.take(k + 1),
            ));
        }
    }
    assert(base.constraints@.take(nc as int) =~= base.constraints@);

    // Add the lookup tables.
    let nt = base.tables.len();
    assert(cs.spec_tables() =~= spec_table_views(base.tables@.take(0)));
    for t in 0..nt
        invariant
            nt == base.tables@.len(),
            base.wf(),
            cs.spec_public() == seq![FieldValue::spec_one()] + spec_values(public_entries),
            cs.spec_private() == spec_values(private_entries),
            cs.spec_constraints() == spec_converted_triples(base.constraints@),
            cs.spec_tables() == spec_table_views(base.tables@.take(t as int)),
            cs.lookup_constraints == old(cs).lookup_constraints,
            cs.wf(),
    {
        let table = base.tables[t].duplicate();
        assert(table.wf());
        cs.add_lookup_table(table);
        proof {
            assert(spec_table_views(base.tables@.take(t + 1)) =~= spec_table_views(
                base.tables@.take(t as int),
            ).push(base.tables@[t as int].spec_rows()));
            assert(cs.spec_tables() =~= spec_table_views(base.tables@.take(t + 1)));
        }
    }
    assert(base.tables@.take(nt as int) =~= base.tables@);

    // Enforce all of the lookup constraints; a bad table reference is the
    // target system's own failure and propagates.
    let nl = base.lookup_constraints.len();
    assert(cs.spec_lookup_constraints() =~= spec_converted_lookups(
        base.lookup_constraints@.take(0),
    ));
    for k in 0..nl
        invariant
            nl == base.lookup_constraints@.len(),
            nt == base.tables@.len(),
            base.wf(),
            converter.wf(),
            converter.public@.len() == base.spec_public().len(),
            converter.private@.len() == base.spec_private().len(),
            cs.spec_public() == seq![FieldValue::spec_one()] + spec_values(public_entries),
            cs.spec_private() == spec_values(private_entries),
            cs.spec_constraints() == spec_converted_triples(base.constraints@),
            cs.spec_tables() == spec_table_views(base.tables@),
            cs.spec_lookup_constraints() == spec_converted_lookups(
                base.lookup_constraints@.take(k as int),
            ),
            forall|j: int| 0 <= j < k ==> (#[trigger] base.lookup_constraints@[j]).3 < nt,
            cs.wf(),
    {
        let entry = &base.lookup_constraints[k];
        let a = convert_lc(&entry.0, &converter);
        let b = convert_lc(&entry.1, &converter);
        let c = convert_lc(&entry.2, &converter);
        proof {
            assert(cs.spec_tables().len() == cs.tables@.len());
            assert(spec_table_views(base.tables@).len() == base.tables@.len());
        }
        assert(cs.tables@.len() == nt);
        let outcome = cs.enforce_lookup(a, b, c, entry.3);
        match outcome {
            Ok(_) => {
                proof {
                    assert(spec_converted_lookups(base.lookup_constraints@.take(k + 1))
                        =~= spec_converted_lookups(base.lookup_constraints@.take(k as int)).push(
                        (
                            spec_convert_lc(base.lookup_constraints@[k as int].0),
                            spec_convert_lc(base.lookup_constraints@[k as int].1),
                            spec_convert_lc(base.lookup_constraints@[k as int].2),
                            base.lookup_constraints@[k as int].3 as int,
                        ),
                    ));
                    assert(cs.spec_lookup_constraints() =~= spec_converted_lookups(
                        base.lookup_constraints@.take(k + 1),
                    ));
                }
            },
            Err(failure) => {
                proof {
                    lemma_first_invalid_lookup(base.lookup_constraints@, nt as int, k as int);
                }
                return Err(failure);
            },
        }
    }
    assert(base.lookup_constraints@.take(nl as int) =~= base.lookup_constraints@);
    Ok(())
}

impl Assignment {
    /// Synthesizes this assignment into a constraint system that starts in
    /// its defined empty state. On success the target holds the public
    /// values behind the constant one, the private values aligned by index,
    /// and every constraint, table and lookup constraint converted in order;
    /// the only failure is a lookup constraint naming an unregistered table.
    pub fn generate_constraints(&self, cs: &mut TargetSystem) -> (r: Result<(), SynthesisError>)
        requires
            self.wf(),
            old(cs).is_fresh(),
            old(cs).wf(),
        ensures
            final(cs).spec_public() == seq![FieldValue::spec_one()] + spec_values(
                self.spec_public(),
            ),
            final(cs).spec_private() == spec_values(self.spec_private()),
            final(cs).spec_constraints() == spec_converted_triples(self.constraints@),
            final(cs).spec_tables() == spec_table_views(self.tables@),
            r is Ok <==> spec_lookup_refs_valid(
                self.lookup_constraints@,
                self.tables@.len() as int,
            ),
            r is Ok ==> final(cs).spec_lookup_constraints() == spec_converted_lookups(
                self.lookup_constraints@,
            ),
            r is Err ==> r == Err::<(), SynthesisError>(SynthesisError::MissingLookupTable)
                && final(cs).spec_lookup_constraints() == spec_converted_lookups(
                self.lookup_constraints@.take(
                    spec_first_invalid_lookup(self.lookup_constraints@, self.tables@.len() as int),
                ),
            ),
            final(cs).wf(),
    {
        synthesize_into(&self.public, &self.private, self, cs)
    }
}

} // verus!
