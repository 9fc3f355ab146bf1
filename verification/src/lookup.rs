//! Lookup tables: predeclared rows of wire-value triples against which a
//! lookup constraint is checked.

use vstd::prelude::*;

use crate::field::FieldValue;

verus! {

/// A lookup table: an ordered list of rows, each a triple of field values. A
/// lookup constraint is satisfied when the evaluations of its three sides
/// appear together as one of these rows.
pub struct LookupTable {
    pub rows: Vec<(FieldValue, FieldValue, FieldValue)>,
}

impl LookupTable {
    /// The rows of the table, in order.
    pub open spec fn spec_rows(self) -> Seq<(FieldValue, FieldValue, FieldValue)> {
        self.rows@
    }

    /// Every value in the table is canonical.
    pub open spec fn wf(self) -> bool {
        forall|i: int|
            0 <= i < self.rows@.len() ==> (#[trigger] self.rows@[i]).0.wf() && self.rows@[i].1.wf()
                && self.rows@[i].2.wf()
    }

    /// Returns a table with the same rows.
    pub fn duplicate(&self) -> (r: LookupTable)
        ensures
            r.spec_rows() == self.spec_rows(),
    {
        let mut rows: Vec<(FieldValue, FieldValue, FieldValue)> = Vec::new();
        let n = self.rows.len();
        for i in 0..n
            invariant
                n == self.rows@.len(),
                rows@ == self.rows@.take(i as int),
        {
            rows.push(self.rows[i]);
            assert(rows@ =~= self.rows@.take(i + 1));
        }
        assert(self.rows@.take(n as int) =~= self.rows@);
        LookupTable { rows }
    }
}

} // verus!
