//! Fixed-size tables of numbers, as they are kept in the external memory.

use vstd::prelude::*;

verus! {

/// The type of a table's entries.
pub type Numeric = i32;

/// A table of `H` rows and `W` columns.
#[derive(Debug)]
pub struct Tensor2D<const H: usize, const W: usize> {
    tensor: [[Numeric; W]; H],
}

impl<const H: usize, const W: usize> View for Tensor2D<H, W> {
    type V = Seq<Seq<Numeric>>;

    /// The rows of the table, each a sequence of `W` entries.
    closed spec fn view(&self) -> Seq<Seq<Numeric>> {
        Seq::new(H as nat, |row: int| self.tensor@[row]@)
    }
}

impl<const H: usize, const W: usize> Tensor2D<H, W> {
    /// Makes the table of the given rows.
    pub fn new(tensor: [[Numeric; W]; H]) -> (table: Self)
        ensures
            table@.len() == H,
            forall|row: int| 0 <= row < H ==> #[trigger] table@[row] == tensor@[row]@,
    {
        Self { tensor }
    }

    /// The entry in row `rol` and column `col`.
    pub fn at(&self, rol: usize, col: usize) -> (entry: &Numeric)
        requires
            rol < H,
            col < W,
        ensures
            *entry == self@[rol as int][col as int],
    {
        &self.tensor[rol][col]
    }

    /// The entry in row `rol` and column `col`, to be changed in place. Every
    /// other entry keeps its value.
    pub fn mut_at(&mut self, rol: usize, col: usize) -> (entry: &mut Numeric)
        requires
            rol < H,
            col < W,
        ensures
            *entry == old(self)@[rol as int][col as int],
            final(self)@ == old(self)@.update(
                rol as int,
                old(self)@[rol as int].update(col as int, *final(entry)),
            ),
    {
        &mut self.tensor[rol][col]
    }
}

/// A row of `W` entries.
pub struct Tensor1D<const W: usize> {
    tensor: [Numeric; W],
}

} // verus!
