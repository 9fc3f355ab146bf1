//! The target constraint system that synthesis replays an assignment into.
//!
//! It models the gadget system the prover consumes: a fresh system starts
//! with exactly one public variable (the constant one), no private variables
//! and no constraints; synthesis then allocates variables, enforces
//! constraints, registers lookup tables and enforces lookup constraints
//! against them.

use vstd::prelude::*;

use crate::field::{field_add, field_mul, saturate_u64, spec_field_add, spec_field_mul,
    value_of_limbs, FieldValue};
use crate::lookup::LookupTable;

verus! {

/// A variable of the target system, named by its slot in the public or the
/// private column.
#[derive(Clone, Copy, Debug, PartialEq, Eq, Structural)]
pub enum TargetVariable {
    Public(usize),
    Private(usize),
}

/// A linear combination over target variables: ordered
/// `(variable, coefficient)` terms, accumulated during conversion.
pub struct TargetLinearCombination {
    pub terms: Vec<(TargetVariable, FieldValue)>,
}

impl TargetLinearCombination {
    /// The terms, in accumulation order.
    pub open spec fn spec_terms(self) -> Seq<(TargetVariable, FieldValue)> {
        self.terms@
    }

    /// Every coefficient is canonical.
    pub open spec fn wf(self) -> bool {
        forall|i: int| 0 <= i < self.terms@.len() ==> (#[trigger] self.terms@[i]).1.wf()
    }
}

/// The failure the target system reports back to synthesis: a lookup
/// constraint named a table that was never registered.
#[derive(Clone, Copy, Debug, PartialEq, Eq, Structural)]
pub enum SynthesisError {
    MissingLookupTable,
}

/// The target constraint system.
pub struct TargetSystem {
    pub public: Vec<FieldValue>,
    pub private: Vec<FieldValue>,
    pub constraints: Vec<(TargetLinearCombination, TargetLinearCombination, TargetLinearCombination)>,
    pub tables: Vec<LookupTable>,
    pub lookup_constraints: Vec<
        (TargetLinearCombination, TargetLinearCombination, TargetLinearCombination, usize),
    >,
}

impl TargetSystem {
    /// The public variable values, slot 0 being the constant one.
    pub open spec fn spec_public(self) -> Seq<FieldValue> {
        self.public@
    }

    /// The private variable values, in allocation order.
    pub open spec fn spec_private(self) -> Seq<FieldValue> {
        self.private@
    }

    /// The enforced constraints, each as the term sequences of its three
    /// sides.
    pub open spec fn spec_constraints(self) -> Seq<
        (Seq<(TargetVariable, FieldValue)>, Seq<(TargetVariable, FieldValue)>, Seq<
            (TargetVariable, FieldValue),
        >),
    > {
        self.constraints@.map_values(
            |c: (TargetLinearCombination, TargetLinearCombination, TargetLinearCombination)|
                (c.0.spec_terms(), c.1.spec_terms(), c.2.spec_terms()),
        )
    }

    /// The registered lookup tables, each as its row sequence.
    pub open spec fn spec_tables(self) -> Seq<Seq<(FieldValue, FieldValue, FieldValue)>> {
        self.tables@.map_values(|t: LookupTable| t.spec_rows())
    }

    /// The enforced lookup constraints: three sides and the referenced table.
    pub open spec fn spec_lookup_constraints(self) -> Seq<
        (Seq<(TargetVariable, FieldValue)>, Seq<(TargetVariable, FieldValue)>, Seq<
            (TargetVariable, FieldValue),
        >, int),
    > {
        self.lookup_constraints@.map_values(
            |c: (TargetLinearCombination, TargetLinearCombination, TargetLinearCombination, usize)|
                (c.0.spec_terms(), c.1.spec_terms(), c.2.spec_terms(), c.3 as int),
        )
    }

    /// A fresh system: one public variable holding the constant one, and
    /// nothing else.
    pub open spec fn is_fresh(self) -> bool {
        &&& self.spec_public() == seq![FieldValue::spec_one()]
        &&& self.spec_private() == Seq::<FieldValue>::empty()
        &&& self.spec_constraints() == Seq::<
            (Seq<(TargetVariable, FieldValue)>, Seq<(TargetVariable, FieldValue)>, Seq<
                (TargetVariable, FieldValue),
            >),
        >::empty()
        &&& self.spec_tables() == Seq::<Seq<(FieldValue, FieldValue, FieldValue)>>::empty()
        &&& self.spec_lookup_constraints().len() == 0
    }

    /// Every value the system stores is canonical.
    pub open spec fn wf(self) -> bool {
        &&& forall|i: int| 0 <= i < self.public@.len() ==> (#[trigger] self.public@[i]).wf()
        &&& forall|i: int| 0 <= i < self.private@.len() ==> (#[trigger] self.private@[i]).wf()
        &&& forall|i: int|
            0 <= i < self.constraints@.len() ==> (#[trigger] self.constraints@[i]).0.wf()
                && self.constraints@[i].1.wf() && self.constraints@[i].2.wf()
        &&& forall|i: int| 0 <= i < self.tables@.len() ==> (#[trigger] self.tables@[i]).wf()
        &&& forall|i: int|
            0 <= i < self.lookup_constraints@.len() ==> (
            #[trigger] self.lookup_constraints@[i]).0.wf() && self.lookup_constraints@[i].1.wf()
                && self.lookup_constraints@[i].2.wf()
    }

    /// Returns a fresh system in its defined empty state.
    pub fn new() -> (r: TargetSystem)
        ensures
            r.is_fresh(),
            r.wf(),
    {
        let mut public: Vec<FieldValue> = Vec::new();
        public.push(FieldValue::one());
        assert(public@ =~= seq![FieldValue::spec_one()]);
        let r = TargetSystem {
            public,
            private: Vec::new(),
            constraints: Vec::new(),
            tables: Vec::new(),
            lookup_constraints: Vec::new(),
        };
        assert(r.spec_private() =~= Seq::<FieldValue>::empty());
        assert(r.spec_constraints() =~= Seq::<
            (Seq<(TargetVariable, FieldValue)>, Seq<(TargetVariable, FieldValue)>, Seq<
                (TargetVariable, FieldValue),
            >),
        >::empty());
        assert(r.spec_tables() =~= Seq::<Seq<(FieldValue, FieldValue, FieldValue)>>::empty());
        r
    }

    /// Allocates a public variable holding `value` and returns it; it
    /// occupies the next public slot.
    pub fn alloc_input(&mut self, value: FieldValue) -> (r: TargetVariable)
        requires
            value.wf(),
            old(self).wf(),
        ensures
            final(self).public@ == old(self).public@.push(value),
            final(self).private == old(self).private,
            final(self).constraints == old(self).constraints,
            final(self).tables == old(self).tables,
            final(self).lookup_constraints == old(self).lookup_constraints,
            r == TargetVariable::Public(old(self).public@.len() as usize),
            final(self).wf(),
    {
        let slot = self.public.len();
        self.public.push(value);
        TargetVariable::Public(slot)
    }

    /// Allocates a private variable holding `value` and returns it; it
    /// occupies the next private slot.
    pub fn alloc_private(&mut self, value: FieldValue) -> (r: TargetVariable)
        requires
            value.wf(),
            old(self).wf(),
        ensures
            final(self).private@ == old(self).private@.push(value),
            final(self).public == old(self).public,
            final(self).constraints == old(self).constraints,
            final(self).tables == old(self).tables,
            final(self).lookup_constraints == old(self).lookup_constraints,
            r == TargetVariable::Private(old(self).private@.len() as usize),
            final(self).wf(),
    {
        let slot = self.private.len();
        self.private.push(value);
        TargetVariable::Private(slot)
    }

    /// Enforces the constraint `a * b = c`.
    pub fn enforce(
        &mut self,
        a: TargetLinearCombination,
        b: TargetLinearCombination,
        c: TargetLinearCombination,
    )
        requires
            a.wf(),
            b.wf(),
            c.wf(),
            old(self).wf(),
        ensures
            final(self).constraints@ == old(self).constraints@.push((a, b, c)),
            final(self).public == old(self).public,
            final(self).private == old(self).private,
            final(self).tables == old(self).tables,
            final(self).lookup_constraints == old(self).lookup_constraints,
            final(self).wf(),
    {
        self.constraints.push((a, b, c));
    }

    /// Registers a lookup table, last in order.
    pub fn add_lookup_table(&mut self, table: LookupTable)
        requires
            table.wf(),
            old(self).wf(),
        ensures
            final(self).tables@ == old(self).tables@.push(table),
            final(self).public == old(self).public,
            final(self).private == old(self).private,
            final(self).constraints == old(self).constraints,
            final(self).lookup_constraints == old(self).lookup_constraints,
            final(self).wf(),
    {
        self.tables.push(table);
    }

    /// Enforces the lookup constraint `(a, b, c) in tables[table_index]`, or
    /// reports that the referenced table was never registered.
    pub fn enforce_lookup(
        &mut self,
        a: TargetLinearCombination,
        b: TargetLinearCombination,
        c: TargetLinearCombination,
        table_index: usize,
    ) -> (r: Result<(), SynthesisError>)
        requires
            a.wf(),
            b.wf(),
            c.wf(),
            old(self).wf(),
        ensures
            table_index < old(self).tables@.len() ==> r == Ok::<(), SynthesisError>(())
                && final(self).lookup_constraints@ == old(self).lookup_constraints@.push(
                (a, b, c, table_index),
            ) && final(self).public == old(self).public && final(self).private == old(self).private
                && final(self).constraints == old(self).constraints && final(self).tables == old(
                self,
            ).tables,
            table_index >= old(self).tables@.len() ==> r == Err::<(), SynthesisError>(
                SynthesisError::MissingLookupTable,
            ) && *final(self) == *old(self),
            final(self).wf(),
    {
        if table_index < self.tables.len() {
            self.lookup_constraints.push((a, b, c, table_index));
            Ok(())
        } else {
            Err(SynthesisError::MissingLookupTable)
        }
    }

    /// Returns the number of public variables, the constant one included.
    pub fn num_public_variables(&self) -> (r: usize)
        ensures
            r == self.spec_public().len(),
    {
        self.public.len()
    }

    /// Returns the number of private variables.
    pub fn num_private_variables(&self) -> (r: usize)
        ensures
            r == self.spec_private().len(),
    {
        self.private.len()
    }

    /// Returns the number of constraints, arithmetic and lookup together,
    /// saturating at the top of `u64`.
    pub fn num_constraints(&self) -> (r: u64)
        ensures
            r == saturate_u64(self.spec_constraints().len() + self.spec_lookup_constraints().len()),
    {
        (self.constraints.len() as u64).saturating_add(self.lookup_constraints.len() as u64)
    }

    /// Returns the number of registered lookup tables.
    pub fn num_lookup_tables(&self) -> (r: usize)
        ensures
            r == self.spec_tables().len(),
    {
        self.tables.len()
    }

    /// Returns the number of enforced lookup constraints.
    pub fn num_lookup_constraints(&self) -> (r: usize)
        ensures
            r == self.spec_lookup_constraints().len(),
    {
        self.lookup_constraints.len()
    }

    /// The value a target variable holds; a slot that was never allocated
    /// counts as zero.
    pub open spec fn spec_var_value(self, v: TargetVariable) -> FieldValue {
        match v {
            TargetVariable::Public(i) => if i < self.public@.len() {
                self.public@[i as int]
            } else {
                FieldValue::spec_zero()
            },
            TargetVariable::Private(i) => if i < self.private@.len() {
                self.private@[i as int]
            } else {
                FieldValue::spec_zero()
            },
        }
    }

    /// Returns the value a target variable holds.
    fn var_value(&self, v: TargetVariable) -> (r: FieldValue)
        requires
            self.wf(),
        ensures
            r == self.spec_var_value(v),
            r.wf(),
    {
        match v {
            TargetVariable::Public(i) => if i < self.public.len() {
                self.public[i]
            } else {
                FieldValue::zero()
            },
            TargetVariable::Private(i) => if i < self.private.len() {
                self.private[i]
            } else {
                FieldValue::zero()
            },
        }
    }

    /// The evaluation of a term sequence over this system's variable values:
    /// the field sum, term by term, of coefficient times variable value.
    pub open spec fn spec_eval(self, terms: Seq<(TargetVariable, FieldValue)>) -> FieldValue
        decreases terms.len(),
    {
        if terms.len() == 0 {
            FieldValue::spec_zero()
        } else {
            let prev = self.spec_eval(terms.drop_last());
            let term = terms.last();
            value_of_limbs(
                spec_field_add(prev@, spec_field_mul(term.1@, self.spec_var_value(term.0)@)),
            )
        }
    }

    /// Returns the evaluation of a linear combination over this system's
    /// variable values.
    fn eval(&self, lc: &TargetLinearCombination) -> (r: FieldValue)
        requires
            self.wf(),
            lc.wf(),
        ensures
            r == self.spec_eval(lc.spec_terms()),
            r.wf(),
    {
        let mut acc = FieldValue::zero();
        let n = lc.terms.len();
        for i in 0..n
            invariant
                n == lc.terms@.len(),
                self.wf(),
                lc.wf(),
                acc == self.spec_eval(lc.terms@.take(i as int)),
                acc.wf(),
        {
            let (variable, coefficient) = lc.terms[i];
            let value = self.var_value(variable);
            let product = field_mul(&coefficient, &value);
            acc = field_add(&acc, &product);
            proof {
                assert(lc.terms@.take(i + 1).drop_last() =~= lc.terms@.take(i as int));
                assert(lc.terms@.take(i + 1).last() == lc.terms@[i as int]);
                assert(acc == value_of_limbs(acc@));
            }
        }
        assert(lc.terms@.take(n as int) =~= lc.terms@);
        acc
    }

    /// An arithmetic constraint is satisfied when the product of its first
    /// two sides' evaluations equals the third's.
    pub open spec fn spec_arith_satisfied(
        self,
        c: (Seq<(TargetVariable, FieldValue)>, Seq<(TargetVariable, FieldValue)>, Seq<
            (TargetVariable, FieldValue),
        >),
    ) -> bool {
        spec_field_mul(self.spec_eval(c.0)@, self.spec_eval(c.1)@) == self.spec_eval(c.2)@
    }

    /// A lookup constraint is satisfied when it names a registered table and
    /// the triple of its sides' evaluations appears as a row of that table.
    pub open spec fn spec_lookup_satisfied(
        self,
        c: (Seq<(TargetVariable, FieldValue)>, Seq<(TargetVariable, FieldValue)>, Seq<
            (TargetVariable, FieldValue),
        >, int),
    ) -> bool {
        &&& 0 <= c.3 < self.spec_tables().len()
        &&& exists|k: int|
            0 <= k < self.spec_tables()[c.3].len() && self.spec_tables()[c.3][k] == (
            self.spec_eval(c.0),
            self.spec_eval(c.1),
            self.spec_eval(c.2),
            )
    }

    /// The whole system is satisfied when every constraint of either kind is.
    pub open spec fn spec_satisfied(self) -> bool {
        &&& forall|i: int|
            0 <= i < self.spec_constraints().len() ==> self.spec_arith_satisfied(
                #[trigger] self.spec_constraints()[i],
            )
        &&& forall|i: int|
            0 <= i < self.spec_lookup_constraints().len() ==> self.spec_lookup_satisfied(
                #[trigger] self.spec_lookup_constraints()[i],
            )
    }

    /// Returns `true` iff every constraint of the system is satisfied by its
    /// variable values.
    pub fn is_satisfied(&self) -> (r: bool)
        requires
            self.wf(),
        ensures
            r == self.spec_satisfied(),
    {
        let nc = self.constraints.len();
        for i in 0..nc
            invariant
                self.wf(),
                nc == self.constraints@.len(),
                forall|j: int|
                    0 <= j < i ==> self.spec_arith_satisfied(#[trigger] self.spec_constraints()[j]),
        {
            let triple = &self.constraints[i];
            let eval_a = self.eval(&triple.0);
            let eval_b = self.eval(&triple.1);
            let eval_c = self.eval(&triple.2);
            let product = field_mul(&eval_a, &eval_b);
            if !(product.limb0 == eval_c.limb0 && product.limb1 == eval_c.limb1 && product.limb2
                == eval_c.limb2 && product.limb3 == eval_c.limb3) {
                proof {
                    assert(!self.spec_arith_satisfied(self.spec_constraints()[i as int]));
                }
                return false;
            }
            proof {
                assert(product@ =~= self.spec_eval(triple.2.spec_terms())@);
                assert(self.spec_arith_satisfied(self.spec_constraints()[i as int]));
            }
        }
        let nl = self.lookup_constraints.len();
        for i in 0..nl
            invariant
                self.wf(),
                nl == self.lookup_constraints@.len(),
                forall|j: int|
                    0 <= j < self.spec_constraints().len() ==> self.spec_arith_satisfied(
                        #[trigger] self.spec_constraints()[j],
                    ),
                forall|j: int|
                    0 <= j < i ==> self.spec_lookup_satisfied(
                        #[trigger] self.spec_lookup_constraints()[j],
                    ),
        {
            let entry = &self.lookup_constraints[i];
            let eval_a = self.eval(&entry.0);
            let eval_b = self.eval(&entry.1);
            let eval_c = self.eval(&entry.2);
            if entry.3 >= self.tables.len() {
                proof {
                    assert(!self.spec_lookup_satisfied(self.spec_lookup_constraints()[i as int]));
                }
                return false;
            }
            let table = &self.tables[entry.3];
            let rows = table.rows.len();
            let mut found = false;
            for k in 0..rows
                invariant
                    rows == table.rows@.len(),
                    found <==> exists|t: int|
                        0 <= t < k && (#[trigger] table.rows@[t]) == (eval_a, eval_b, eval_c),
            {
                let row = table.rows[k];
                if row.0 == eval_a && row.1 == eval_b && row.2 == eval_c {
                    found = true;
                    proof {
                        assert(table.rows@[k as int] == (eval_a, eval_b, eval_c));
                    }
                }
            }
            if !found {
                proof {
                    assert(self.spec_tables()[entry.3 as int] == table.rows@);
                    assert(!self.spec_lookup_satisfied(self.spec_lookup_constraints()[i as int]));
                }
                return false;
            }
            proof {
                assert(self.spec_tables()[entry.3 as int] == table.rows@);
                let c = self.spec_lookup_constraints()[i as int];
                assert(c == (
                    entry.0.spec_terms(),
                    entry.1.spec_terms(),
                    entry.2.spec_terms(),
                    entry.3 as int,
                ));
                let t = choose|t: int|
                    0 <= t < rows && (#[trigger] table.rows@[t]) == (eval_a, eval_b, eval_c);
                assert(0 <= t < self.spec_tables()[c.3].len() && self.spec_tables()[c.3][t] == (
                self.spec_eval(c.0),
                self.spec_eval(c.1),
                self.spec_eval(c.2),
                ));
                assert(self.spec_lookup_satisfied(c));
            }
        }
        true
    }
}

} // verus!
