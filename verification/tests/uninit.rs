use grounded::uninit::{GroundedArrayCell, GroundedCell};

#[test]
fn fresh_cell_is_empty() {
    let cell: GroundedCell<u32> = GroundedCell::uninit();
    assert!(cell.get().is_none());
}

#[test]
fn cell_write_then_read_round_trip() {
    let mut cell: GroundedCell<u32> = GroundedCell::uninit();
    assert_eq!(cell.write(10), None);
    assert_eq!(*cell.get(), Some(10));
    // Replacing hands back the old value.
    assert_eq!(cell.write(11), Some(10));
    // Taking the value out empties the cell again.
    assert_eq!(cell.take(), Some(11));
    assert!(cell.get().is_none());
}

#[test]
fn fresh_array_cell_reports_declared_capacity() {
    let cell: GroundedArrayCell<u8, 128> = GroundedArrayCell::uninit();
    let (base, len) = cell.get_ptr_len();
    assert_eq!(len, 128);
    assert_eq!(base.offset, 0);
    assert_eq!(base.len, 128);
    let base2 = cell.as_mut_ptr();
    assert_eq!(base2.offset, 0);
    assert_eq!(base2.len, 128);
}

#[test]
fn element_write_then_read_round_trip() {
    let mut cell: GroundedArrayCell<u64, 8> = GroundedArrayCell::uninit();
    let (base, len) = cell.get_ptr_len();
    // For every valid offset: write through the base handle, read the
    // element back, and get the identical value.
    for offset in 0..len {
        cell.span_write(base, offset, 1000 + offset as u64);
        assert_eq!(*cell.get_element_unchecked(offset), 1000 + offset as u64);
    }
    // Earlier writes are still intact after later ones.
    for offset in 0..len {
        assert_eq!(*cell.get_element_unchecked(offset), 1000 + offset as u64);
    }
}

#[test]
fn initialize_all_copied_fills_every_element() {
    let mut cell: GroundedArrayCell<u16, 8> = GroundedArrayCell::uninit();
    cell.initialize_all_copied(0xABCD);
    for offset in 0..8 {
        assert_eq!(*cell.get_element_unchecked(offset), 0xABCD);
    }
}

#[test]
fn initialize_all_with_counting_producer() {
    let mut cell: GroundedArrayCell<usize, 8> = GroundedArrayCell::uninit();
    cell.initialize_all_with(|i: usize| i);
    for offset in 0..8 {
        assert_eq!(*cell.get_element_unchecked(offset), offset);
    }
}

#[test]
fn subslice_elements_alias_cell_elements() {
    let mut cell: GroundedArrayCell<u32, 8> = GroundedArrayCell::uninit();
    cell.initialize_all_with(|i: usize| 10 * i as u32);
    let span = cell.get_subslice_unchecked(2, 4);
    assert_eq!(span.offset, 2);
    assert_eq!(span.len, 4);
    for k in 0..4 {
        assert_eq!(
            *cell.span_element(span, k),
            *cell.get_element_unchecked(2 + k)
        );
    }
}

#[test]
fn writes_through_subslice_land_in_the_cell() {
    let mut cell: GroundedArrayCell<u32, 8> = GroundedArrayCell::uninit();
    cell.initialize_all_copied(0);
    let span = cell.get_subslice_mut_unchecked(3, 2);
    cell.span_write(span, 0, 30);
    cell.span_write(span, 1, 40);
    assert_eq!(*cell.get_element_unchecked(3), 30);
    assert_eq!(*cell.get_element_unchecked(4), 40);
    // Slots outside the subslice are untouched.
    assert_eq!(*cell.get_element_unchecked(2), 0);
    assert_eq!(*cell.get_element_unchecked(5), 0);
}

#[test]
fn mutable_element_access_leaves_other_slots_alone() {
    let mut cell: GroundedArrayCell<u32, 4> = GroundedArrayCell::uninit();
    cell.initialize_all_copied(1);
    {
        let element = cell.get_element_mut_unchecked(2);
        *element = 9;
    }
    assert_eq!(*cell.get_element_unchecked(0), 1);
    assert_eq!(*cell.get_element_unchecked(1), 1);
    assert_eq!(*cell.get_element_unchecked(2), 9);
    assert_eq!(*cell.get_element_unchecked(3), 1);
}
