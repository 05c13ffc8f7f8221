use fmc_bringup::tensor::{Numeric, Tensor2D};

#[test]
fn at_reads_the_entry_of_row_and_column() {
    let table: Tensor2D<2, 10> = Tensor2D::new([
        [0xFFFFFFF, 0xFFFDFFF, 0xABCD, 0x4567, 9, 4, 9, 0, 1, 4],
        [2, 9, 2, 3, 2, 2, 8, 0, 8, 4],
    ]);
    assert_eq!(*table.at(0, 0), 0xFFFFFFF);
    assert_eq!(*table.at(0, 2), 0xABCD);
    assert_eq!(*table.at(0, 9), 4);
    assert_eq!(*table.at(1, 0), 2);
    assert_eq!(*table.at(1, 6), 8);
    assert_eq!(*table.at(1, 9), 4);
}

#[test]
fn mut_at_changes_one_entry_and_no_other() {
    let rows: [[Numeric; 3]; 2] = [[7, 0, 2], [8, 0, 6]];
    let mut table: Tensor2D<2, 3> = Tensor2D::new(rows);
    *table.mut_at(0, 0) = 32345678;
    *table.mut_at(1, 2) = -5;
    for row in 0..2 {
        for col in 0..3 {
            let expected = match (row, col) {
                (0, 0) => 32345678,
                (1, 2) => -5,
                _ => rows[row][col],
            };
            assert_eq!(*table.at(row, col), expected);
        }
    }
}

#[test]
fn mut_at_hands_out_the_current_value() {
    let mut table: Tensor2D<1, 1> = Tensor2D::new([[41]]);
    let entry = table.mut_at(0, 0);
    assert_eq!(*entry, 41);
    *entry += 1;
    assert_eq!(*table.at(0, 0), 42);
}
