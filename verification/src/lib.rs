//! Host-side kernel argument binding and dispatch for a parallel-compute
//! device driver.
//!
//! The crate keeps the bookkeeping of a compute kernel (its argument slots,
//! the names given to some of them, and its work geometry) and decides which
//! driver call each operation issues. The calls themselves are plain values
//! ([`DriverCall`]): the embedding program performs them and hands the
//! driver's reply back.

pub mod arg_table;
pub mod driver;
pub mod error;
pub mod kernel;
pub mod laws;
pub mod work_dims;

pub use crate::arg_table::{ArgTable, ArgTableView};
pub use crate::driver::{
    ArgKind, CommandQueueRaw, DriverCall, DriverCallView, EventListRaw, KernelArg, KernelRaw,
    MemRaw, ProgramRaw, Scalar, ScalarType,
};
pub use crate::error::{Error, ErrorView, Status};
pub use crate::kernel::{Kernel, KernelView, PendingArg, PendingArgView, PendingKernel};
pub use crate::work_dims::WorkDims;
