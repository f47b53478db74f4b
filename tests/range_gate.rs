use halo2_proofs::pasta::Fp;
use halo2_proofs::plonk::ConstraintSystem;
use range_gate::gate::{RangeError, RangeGate, RangeGateConfig, RangeTable};
use range_gate::tables::{table_entries, table_size};
use range_gate::widths::{leading_range_bits, plan_leading_widths, FieldParams, LeadingWidths};

fn config() -> RangeGateConfig {
    let mut cs = ConstraintSystem::<Fp>::default();
    RangeGateConfig {
        w_ceil_leading_limb_range_selector: cs.complex_selector(),
        w_ceil_leading_limb_range_table_column: cs.lookup_table_column(),
        n_floor_leading_limb_range_selector: cs.complex_selector(),
        n_floor_leading_limb_range_table_column: cs.lookup_table_column(),
        d_leading_limb_range_selector: cs.complex_selector(),
        d_leading_limb_range_table_column: cs.lookup_table_column(),
        common_range_selector: cs.complex_selector(),
        common_range_table_column: cs.lookup_table_column(),
    }
}

fn field(max_value: Vec<u32>) -> FieldParams {
    FieldParams { max_value }
}

/// A gate with 4-bit common limbs, a foreign field whose largest element has
/// 8 bits, a native field whose largest element has 10 bits, and a 12-bit
/// quotient bound.
fn small_gate() -> RangeGate {
    let mut gate = RangeGate::new(config(), 4);
    let fills = gate.init_table(&field(vec![200]), &field(vec![1000]), 12).unwrap();
    assert_eq!(fills.len(), 4);
    gate
}

#[test]
fn common_table_is_every_value_below_its_size() {
    let mut gate = RangeGate::new(config(), 4);
    let fills = gate.init_table(&field(vec![200]), &field(vec![1000]), 12).unwrap();
    assert_eq!(fills[0].column, gate.config.common_range_table_column);
    let expected: Vec<u64> = (0..16).collect();
    assert_eq!(fills[0].entries, expected);
}

#[test]
fn leading_bits_full_limb_when_remainder_is_zero() {
    assert_eq!(leading_range_bits(34, 17), 17);
    assert_eq!(leading_range_bits(35, 17), 1);
    assert_eq!(leading_range_bits(0, 17), 17);
    assert_eq!(leading_range_bits(10, 4), 2);
}

#[test]
fn leading_tables_have_their_widths() {
    let mut gate = RangeGate::new(config(), 4);
    let fills = gate.init_table(&field(vec![200]), &field(vec![1000]), 12).unwrap();
    assert_eq!(gate.leading_widths, Some(LeadingWidths { w_ceil: 1, n_floor: 2, d: 4 }));
    assert_eq!(fills[1].column, gate.config.w_ceil_leading_limb_range_table_column);
    assert_eq!(fills[1].entries, vec![0, 1]);
    assert_eq!(fills[2].column, gate.config.n_floor_leading_limb_range_table_column);
    assert_eq!(fills[2].entries, vec![0, 1, 2, 3]);
    assert_eq!(fills[3].column, gate.config.d_leading_limb_range_table_column);
    assert_eq!(fills[3].entries.len(), 16);
}

#[test]
fn common_row_accepts_exactly_common_range() {
    let gate = small_gate();
    assert_eq!(gate.check_row(RangeTable::Common, 0), Ok(()));
    assert_eq!(gate.check_row(RangeTable::Common, 15), Ok(()));
    assert_eq!(gate.check_row(RangeTable::Common, 16), Err(RangeError::AssignmentError));
    assert_eq!(gate.check_row(RangeTable::Common, u64::MAX), Err(RangeError::AssignmentError));
}

#[test]
fn leading_row_refuses_its_table_size() {
    let gate = small_gate();
    assert_eq!(gate.check_row(RangeTable::DLeading, 15), Ok(()));
    assert_eq!(gate.check_row(RangeTable::DLeading, 16), Err(RangeError::AssignmentError));
    assert_eq!(gate.check_row(RangeTable::NFloorLeading, 4), Err(RangeError::AssignmentError));
}

#[test]
fn row_before_tables_is_refused() {
    let gate = RangeGate::new(config(), 4);
    assert_eq!(gate.leading_widths, None);
    assert_eq!(gate.check_row(RangeTable::Common, 0), Err(RangeError::AssignmentError));
}

#[test]
fn second_init_is_configuration_error() {
    let mut gate = RangeGate::new(config(), 4);
    assert!(gate.init_table(&field(vec![200]), &field(vec![1000]), 12).is_ok());
    let widths = gate.leading_widths;
    assert_eq!(
        gate.init_table(&field(vec![200]), &field(vec![1000]), 12).err(),
        Some(RangeError::ConfigurationError)
    );
    assert_eq!(gate.leading_widths, widths);
}

#[test]
fn scenario_n_floor_two_bit_leading_limb() {
    let gate = small_gate();
    assert_eq!(gate.leading_widths.unwrap().n_floor, 2);
    assert_eq!(gate.check_row(RangeTable::NFloorLeading, 3), Ok(()));
    assert_eq!(gate.check_row(RangeTable::NFloorLeading, 4), Err(RangeError::AssignmentError));
}

#[test]
fn scenario_w_ceil_one_bit_leading_limb() {
    let gate = small_gate();
    assert_eq!(gate.leading_widths.unwrap().w_ceil, 1);
    assert_eq!(gate.check_row(RangeTable::WCeilLeading, 1), Ok(()));
    assert_eq!(gate.check_row(RangeTable::WCeilLeading, 2), Err(RangeError::AssignmentError));
    assert_eq!(gate.check_row(RangeTable::Common, 2), Ok(()));
}

#[test]
fn scenario_twelve_bits_give_full_leading_table() {
    let gate = small_gate();
    assert_eq!(gate.leading_widths.unwrap().d, 4);
    assert_eq!(table_entries(4).len(), 16);
}

#[test]
fn widths_from_multi_digit_moduli() {
    // Largest elements of 64 and 255 bits; 255 is a whole number of 17-bit limbs.
    let foreign = field(vec![u32::MAX, u32::MAX]);
    let native = field(vec![0, 0, 0, 0, 0, 0, 0, 0x4000_0000]);
    let w = plan_leading_widths(&foreign, &native, 40, 17);
    assert_eq!(w, LeadingWidths { w_ceil: 14, n_floor: 17, d: 6 });
    let zero = field(vec![]);
    let w = plan_leading_widths(&zero, &zero, 0, 3);
    assert_eq!(w, LeadingWidths { w_ceil: 1, n_floor: 3, d: 3 });
}

#[test]
fn table_size_is_power_of_two() {
    assert_eq!(table_size(0), 1);
    assert_eq!(table_size(17), 131072);
    assert_eq!(table_size(63), 1u64 << 63);
    assert_eq!(table_entries(0), vec![0]);
}

#[test]
fn selectors_per_row_kind() {
    let gate = small_gate();
    let c = gate.config;
    assert_eq!(gate.one_line_in_common_range(), vec![c.common_range_selector]);
    assert_eq!(
        gate.one_line_in_w_ceil_leading_range(),
        vec![c.common_range_selector, c.w_ceil_leading_limb_range_selector]
    );
    assert_eq!(
        gate.one_line_in_n_floor_leading_range(),
        vec![c.common_range_selector, c.n_floor_leading_limb_range_selector]
    );
    assert_eq!(
        gate.one_line_in_d_leading_range(),
        vec![c.common_range_selector, c.d_leading_limb_range_selector]
    );
    assert_eq!(gate.selectors_for(RangeTable::DLeading), gate.one_line_in_d_leading_range());
}
