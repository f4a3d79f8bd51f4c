//! Dense matrix storage in row-major and column-major layouts, with the
//! mapping from logical (row, column) coordinates to buffer offsets proved
//! for every layout.

pub mod fixed_col;
pub mod fixed_row;
pub mod laws;
pub mod layout;
pub mod matrix_col;
pub mod matrix_row;
pub mod render;
pub mod traits;
pub mod zero;

pub use fixed_col::FixedMatrixColMajor;
pub use fixed_row::FixedMatrixRowMajor;
pub use layout::LayoutScheme;
pub use matrix_col::MatrixColMajor;
pub use matrix_row::MatrixRowMajor;
pub use traits::{FixedMatrix, Matrix, MatrixDense};
