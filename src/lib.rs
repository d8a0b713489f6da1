//! Scalar expression evaluation over columnar data blocks, with vectorised
//! three-valued logical kernels.

pub mod data_array_logic;
pub mod datablocks;
pub mod datavalues;
pub mod error;
pub mod functions;
