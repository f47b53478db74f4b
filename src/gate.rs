//! The range gate: write-once lookup tables and the selectors of each kind of row.
use crate::tables::{lemma_range_table_exact, range_entries, table_entries, table_size};
use crate::widths::{plan_leading_widths, planned_widths, FieldParams, LeadingWidths};
use halo2_proofs::plonk::{Selector, TableColumn};
use vstd::arithmetic::power2::{lemma_pow2_strictly_increases, pow2};
use vstd::prelude::*;

verus! {

/// A selector of the constraint system, carried through unchanged.
#[verifier::external_type_specification]
#[verifier::external_body]
pub struct ExSelector(Selector);

/// A fixed column of a lookup table, carried through unchanged.
#[verifier::external_type_specification]
#[verifier::external_body]
pub struct ExTableColumn(TableColumn);

/// The four range tables; a row is named by the tightest table it is checked against.
#[derive(Clone, Copy, Debug, PartialEq, Eq, Structural)]
pub enum RangeTable {
    Common,
    WCeilLeading,
    NFloorLeading,
    DLeading,
}

/// The two ways a range gate fails.
#[derive(Clone, Copy, Debug, PartialEq, Eq, Structural)]
pub enum RangeError {
    /// The tables could not be written, for instance a second time.
    ConfigurationError,
    /// A row cannot hold its value: the tables are missing, or the value lies
    /// outside an enabled table.
    AssignmentError,
}

/// The selectors of the range lookups and the columns of their tables.
#[derive(Clone, Copy, Debug)]
pub struct RangeGateConfig {
    pub w_ceil_leading_limb_range_selector: Selector,
    pub w_ceil_leading_limb_range_table_column: TableColumn,
    pub n_floor_leading_limb_range_selector: Selector,
    pub n_floor_leading_limb_range_table_column: TableColumn,
    /// Range of the leading limb of the quotient `d` of a multiply-and-reduce.
    pub d_leading_limb_range_selector: Selector,
    pub d_leading_limb_range_table_column: TableColumn,
    pub common_range_selector: Selector,
    pub common_range_table_column: TableColumn,
}

impl RangeGateConfig {
    /// The selector that turns on the lookup into `t`.
    pub open spec fn selector_of(&self, t: RangeTable) -> Selector {
        match t {
            RangeTable::Common => self.common_range_selector,
            RangeTable::WCeilLeading => self.w_ceil_leading_limb_range_selector,
            RangeTable::NFloorLeading => self.n_floor_leading_limb_range_selector,
            RangeTable::DLeading => self.d_leading_limb_range_selector,
        }
    }

    /// The column that holds `t`.
    pub open spec fn column_of(&self, t: RangeTable) -> TableColumn {
        match t {
            RangeTable::Common => self.common_range_table_column,
            RangeTable::WCeilLeading => self.w_ceil_leading_limb_range_table_column,
            RangeTable::NFloorLeading => self.n_floor_leading_limb_range_table_column,
            RangeTable::DLeading => self.d_leading_limb_range_table_column,
        }
    }
}

/// One table to write: its column and its entries, entry `i` at row `i`.
pub struct TableFill {
    pub column: TableColumn,
    pub entries: Vec<u64>,
}

/// Whether a row of kind `kind` is checked against table `t`: every row
/// against the common table, a leading row against its own table too.
pub open spec fn row_enables(kind: RangeTable, t: RangeTable) -> bool {
    t == RangeTable::Common || t == kind
}

/// The tables that a row of kind `kind` is checked against, common first.
pub open spec fn row_tables(kind: RangeTable) -> Seq<RangeTable> {
    if kind == RangeTable::Common {
        seq![RangeTable::Common]
    } else {
        seq![RangeTable::Common, kind]
    }
}

/// The order in which the tables are handed out to be written.
pub open spec fn table_order() -> Seq<RangeTable> {
    seq![RangeTable::Common, RangeTable::WCeilLeading, RangeTable::NFloorLeading, RangeTable::DLeading]
}

/// A range gate: its configuration, the width of a common limb, and, once the
/// tables are written, the widths of the leading tables.
pub struct RangeGate {
    pub config: RangeGateConfig,
    pub common_range_bits: usize,
    pub leading_widths: Option<LeadingWidths>,
}

impl RangeGate {
    /// The common width fits a table and the leading widths, once known, are
    /// each at least one bit and at most a common limb.
    pub open spec fn wf(&self) -> bool {
        &&& 0 < self.common_range_bits < 64
        &&& self.leading_widths matches Some(w) ==> w.wf(self.common_range_bits as nat)
    }

    /// Width in bits of table `t`, once the tables are written.
    pub open spec fn table_bits(&self, t: RangeTable) -> nat
        recommends
            self.leading_widths is Some,
    {
        let w = self.leading_widths->0;
        match t {
            RangeTable::Common => self.common_range_bits as nat,
            RangeTable::WCeilLeading => w.w_ceil as nat,
            RangeTable::NFloorLeading => w.n_floor as nat,
            RangeTable::DLeading => w.d as nat,
        }
    }

    /// A row of kind `kind` holding `v` meets every lookup it enables: the
    /// tables are written and `v` is an entry of each enabled table.
    pub open spec fn row_accepts(&self, kind: RangeTable, v: u64) -> bool {
        &&& self.leading_widths is Some
        &&& forall|t: RangeTable| row_enables(kind, t)
            ==> #[trigger] range_entries(self.table_bits(t)).contains(v)
    }

    /// A gate whose tables are not written yet.
    pub fn new(config: RangeGateConfig, common_range_bits: usize) -> (r: RangeGate)
        requires
            0 < common_range_bits < 64,
        ensures
            r.wf(),
            r.config == config,
            r.common_range_bits == common_range_bits,
            r.leading_widths is None,
    {
        RangeGate { config, common_range_bits, leading_widths: None }
    }

    /// `fills` writes each table in `table_order()` into its column, with the
    /// entries of its width.
    pub open spec fn fills_tables(&self, fills: Seq<TableFill>) -> bool {
        &&& fills.len() == 4
        &&& forall|i: int|
            0 <= i < 4 ==> {
                &&& (#[trigger] fills[i]).column == self.config.column_of(table_order()[i])
                &&& fills[i].entries@ == range_entries(self.table_bits(table_order()[i]))
            }
    }

    /// Sizes the three leading tables from the foreign field, the native
    /// field and the bit bound of the quotient, records their widths, and
    /// hands out the four tables to write. The tables are written once: a
    /// second call fails with `ConfigurationError` and changes nothing.
    pub fn init_table(
        &mut self,
        foreign: &FieldParams,
        native: &FieldParams,
        d_range_bits: u64,
    ) -> (r: Result<Vec<TableFill>, RangeError>)
        requires
            old(self).wf(),
        ensures
            final(self).wf(),
            old(self).leading_widths is Some ==> r == Err::<Vec<TableFill>, RangeError>(
                RangeError::ConfigurationError,
            ) && *final(self) == *old(self),
            old(self).leading_widths is None ==> {
                &&& final(self).config == old(self).config
                &&& final(self).common_range_bits == old(self).common_range_bits
                &&& final(self).leading_widths == Some(
                    planned_widths(
                        *foreign,
                        *native,
                        d_range_bits as nat,
                        old(self).common_range_bits as nat,
                    ),
                )
                &&& r matches Ok(fills) && final(self).fills_tables(fills@)
            },
    {
        if self.leading_widths.is_some() {
            return Err(RangeError::ConfigurationError);
        }
        let widths = plan_leading_widths(foreign, native, d_range_bits, self.common_range_bits);
        self.leading_widths = Some(widths);
        let mut fills: Vec<TableFill> = Vec::new();
        fills.push(
            TableFill {
                column: self.config.common_range_table_column,
                entries: table_entries(self.common_range_bits),
            },
        );
        fills.push(
            TableFill {
                column: self.config.w_ceil_leading_limb_range_table_column,
                entries: table_entries(widths.w_ceil),
            },
        );
        fills.push(
            TableFill {
                column: self.config.n_floor_leading_limb_range_table_column,
                entries: table_entries(widths.n_floor),
            },
        );
        fills.push(
            TableFill {
                column: self.config.d_leading_limb_range_table_column,
                entries: table_entries(widths.d),
            },
        );
        proof {
            let t = table_order();
            assert(t[0] == RangeTable::Common && t[1] == RangeTable::WCeilLeading);
            assert(t[2] == RangeTable::NFloorLeading && t[3] == RangeTable::DLeading);
        }
        Ok(fills)
    }

    /// The selectors to enable on a row of kind `kind`, in the order of
    /// `row_tables(kind)`: the common one always, and the row's own one for a
    /// leading row.
    pub fn selectors_for(&self, kind: RangeTable) -> (r: Vec<Selector>)
        ensures
            r@.len() == row_tables(kind).len(),
            forall|i: int|
                0 <= i < r@.len() ==> #[trigger] r@[i] == self.config.selector_of(row_tables(kind)[i]),
    {
        let mut r: Vec<Selector> = Vec::new();
        r.push(self.config.common_range_selector);
        match kind {
            RangeTable::Common => {},
            RangeTable::WCeilLeading => r.push(self.config.w_ceil_leading_limb_range_selector),
            RangeTable::NFloorLeading => r.push(self.config.n_floor_leading_limb_range_selector),
            RangeTable::DLeading => r.push(self.config.d_leading_limb_range_selector),
        }
        r
    }

    /// Selectors of a row checked against the common table alone.
    pub fn one_line_in_common_range(&self) -> (r: Vec<Selector>)
        ensures
            r@ == seq![self.config.common_range_selector],
    {
        let r = self.selectors_for(RangeTable::Common);
        assert(r@ =~= seq![self.config.common_range_selector]);
        r
    }

    /// Selectors of a row that holds the leading limb of a foreign-field value.
    pub fn one_line_in_w_ceil_leading_range(&self) -> (r: Vec<Selector>)
        ensures
            r@ == seq![
                self.config.common_range_selector,
                self.config.w_ceil_leading_limb_range_selector,
            ],
    {
        let r = self.selectors_for(RangeTable::WCeilLeading);
        assert(r@ =~= seq![
            self.config.common_range_selector,
            self.config.w_ceil_leading_limb_range_selector,
        ]);
        r
    }

    /// Selectors of a row that holds the leading limb of a value below the
    /// native field's largest element.
    pub fn one_line_in_n_floor_leading_range(&self) -> (r: Vec<Selector>)
        ensures
            r@ == seq![
                self.config.common_range_selector,
                self.config.n_floor_leading_limb_range_selector,
            ],
    {
        let r = self.selectors_for(RangeTable::NFloorLeading);
        assert(r@ =~= seq![
            self.config.common_range_selector,
            self.config.n_floor_leading_limb_range_selector,
        ]);
        r
    }

    /// Selectors of a row that holds the leading limb of the quotient `d`.
    pub fn one_line_in_d_leading_range(&self) -> (r: Vec<Selector>)
        ensures
            r@ == seq![self.config.common_range_selector, self.config.d_leading_limb_range_selector],
    {
        let r = self.selectors_for(RangeTable::DLeading);
        assert(r@ =~= seq![
            self.config.common_range_selector,
            self.config.d_leading_limb_range_selector,
        ]);
        r
    }

    /// Checks that a row of kind `kind` can hold `value`: the tables are
    /// written and `value` is an entry of every table the row enables.
    pub fn check_row(&self, kind: RangeTable, value: u64) -> (r: Result<(), RangeError>)
        requires
            self.wf(),
        ensures
            r is Ok <==> self.row_accepts(kind, value),
            r is Err ==> r == Err::<(), RangeError>(RangeError::AssignmentError),
    {
        let widths = match self.leading_widths {
            Some(w) => w,
            None => return Err(RangeError::AssignmentError),
        };
        let bits = match kind {
            RangeTable::Common => self.common_range_bits,
            RangeTable::WCeilLeading => widths.w_ceil,
            RangeTable::NFloorLeading => widths.n_floor,
            RangeTable::DLeading => widths.d,
        };
        proof {
            lemma_row_accepts_bounds(*self, kind, value);
        }
        if value >= table_size(self.common_range_bits) || value >= table_size(bits) {
            Err(RangeError::AssignmentError)
        } else {
            Ok(())
        }
    }
}

/// Membership of `v` in the tables a row enables, as bounds on `v`.
proof fn lemma_row_accepts_bounds(gate: RangeGate, kind: RangeTable, v: u64)
    requires
        gate.wf(),
        gate.leading_widths is Some,
    ensures
        gate.row_accepts(kind, v) <==> (v as nat) < pow2(gate.common_range_bits as nat) && (v as nat)
            < pow2(gate.table_bits(kind)),
        gate.table_bits(kind) <= gate.common_range_bits,
{
    let c = gate.common_range_bits as nat;
    let k = gate.table_bits(kind);
    lemma_range_table_exact(c);
    lemma_range_table_exact(k);
    assert(gate.table_bits(RangeTable::Common) == c);
    if (v as nat) < pow2(c) && (v as nat) < pow2(k) {
        assert forall|t: RangeTable| row_enables(kind, t) implies #[trigger] range_entries(
            gate.table_bits(t),
        ).contains(v) by {
            if t == RangeTable::Common {
            } else {
                assert(t == kind);
            }
        }
    }
    if gate.row_accepts(kind, v) {
        assert(row_enables(kind, RangeTable::Common));
        assert(row_enables(kind, kind));
        assert(range_entries(gate.table_bits(RangeTable::Common)).contains(v));
        assert(range_entries(gate.table_bits(kind)).contains(v));
    }
}

/// A common row holds exactly the values below `2^common_range_bits`.
pub proof fn lemma_common_row_range(gate: RangeGate, v: u64)
    requires
        gate.wf(),
        gate.leading_widths is Some,
    ensures
        gate.row_accepts(RangeTable::Common, v) <==> (v as nat) < pow2(gate.common_range_bits as nat),
{
    lemma_row_accepts_bounds(gate, RangeTable::Common, v);
}

/// A leading row holds exactly the values below both `2^common_range_bits` and
/// `2^w` for the width `w` of its own table; as `w` is at most a common limb,
/// that is exactly the values below `2^w`, so `2^w` itself is refused.
pub proof fn lemma_leading_row_range(gate: RangeGate, kind: RangeTable, v: u64)
    requires
        gate.wf(),
        gate.leading_widths is Some,
        kind != RangeTable::Common,
    ensures
        gate.row_accepts(kind, v) <==> (v as nat) < pow2(gate.common_range_bits as nat) && (v as nat)
            < pow2(gate.table_bits(kind)),
        gate.row_accepts(kind, v) <==> (v as nat) < pow2(gate.table_bits(kind)),
{
    lemma_row_accepts_bounds(gate, kind, v);
    let c = gate.common_range_bits as nat;
    let k = gate.table_bits(kind);
    if k < c {
        lemma_pow2_strictly_increases(k, c);
    }
}

} // verus!
