//! The driver as this crate sees it: tokens for the objects it owns, the
//! values that can be bound to a kernel argument, the calls that can be asked
//! of it, and the reading of its replies.

use vstd::prelude::*;
use crate::error::{Error, ErrorView, Status};
use crate::work_dims::raw_view;

verus! {

/// Names a compiled program on the driver's side.
#[derive(Clone, Copy, Debug, PartialEq, Eq, Hash, Structural)]
pub struct ProgramRaw {
    pub id: usize,
}

/// Names a kernel object on the driver's side.
#[derive(Clone, Copy, Debug, PartialEq, Eq, Hash, Structural)]
pub struct KernelRaw {
    pub id: usize,
}

/// Names a command queue on the driver's side.
#[derive(Clone, Copy, Debug, PartialEq, Eq, Hash, Structural)]
pub struct CommandQueueRaw {
    pub id: usize,
}

/// Names a memory object (a buffer or an image) on the driver's side.
#[derive(Clone, Copy, Debug, PartialEq, Eq, Hash, Structural)]
pub struct MemRaw {
    pub id: usize,
}

/// Names an event list on the driver's side.
#[derive(Clone, Copy, Debug, PartialEq, Eq, Hash, Structural)]
pub struct EventListRaw {
    pub id: usize,
}

/// The numeric types that a kernel argument can have, by their names in the
/// kernel language.
#[derive(Clone, Copy, Debug, PartialEq, Eq, Hash, Structural)]
pub enum ScalarType {
    Char,
    Uchar,
    Short,
    Ushort,
    Int,
    Uint,
    Long,
    Ulong,
    Float,
    Double,
}

impl ScalarType {
    /// The width of a value of the type, in bytes.
    pub open spec fn spec_size(&self) -> usize {
        match *self {
            ScalarType::Char | ScalarType::Uchar => 1,
            ScalarType::Short | ScalarType::Ushort => 2,
            ScalarType::Int | ScalarType::Uint | ScalarType::Float => 4,
            ScalarType::Long | ScalarType::Ulong | ScalarType::Double => 8,
        }
    }

    /// Returns the width of a value of the type, in bytes.
    #[verifier::when_used_as_spec(spec_size)]
    pub fn size(&self) -> (bytes: usize)
        ensures
            bytes == self.spec_size(),
    {
        match self {
            ScalarType::Char | ScalarType::Uchar => 1,
            ScalarType::Short | ScalarType::Ushort => 2,
            ScalarType::Int | ScalarType::Uint | ScalarType::Float => 4,
            ScalarType::Long | ScalarType::Ulong | ScalarType::Double => 8,
        }
    }
}

/// A scalar value together with its type. `Float` and `Double` hold the bit
/// pattern of the value.
#[derive(Clone, Copy, Debug, PartialEq, Eq, Hash, Structural)]
pub enum Scalar {
    Char(i8),
    Uchar(u8),
    Short(i16),
    Ushort(u16),
    Int(i32),
    Uint(u32),
    Long(i64),
    Ulong(u64),
    Float(u32),
    Double(u64),
}

impl Scalar {
    /// The type of the value.
    pub open spec fn spec_scalar_type(&self) -> ScalarType {
        match *self {
            Scalar::Char(_) => ScalarType::Char,
            Scalar::Uchar(_) => ScalarType::Uchar,
            Scalar::Short(_) => ScalarType::Short,
            Scalar::Ushort(_) => ScalarType::Ushort,
            Scalar::Int(_) => ScalarType::Int,
            Scalar::Uint(_) => ScalarType::Uint,
            Scalar::Long(_) => ScalarType::Long,
            Scalar::Ulong(_) => ScalarType::Ulong,
            Scalar::Float(_) => ScalarType::Float,
            Scalar::Double(_) => ScalarType::Double,
        }
    }

    /// The zero of a type: the value all of whose bits are clear.
    pub open spec fn spec_zero(ty: ScalarType) -> Scalar {
        match ty {
            ScalarType::Char => Scalar::Char(0),
            ScalarType::Uchar => Scalar::Uchar(0),
            ScalarType::Short => Scalar::Short(0),
            ScalarType::Ushort => Scalar::Ushort(0),
            ScalarType::Int => Scalar::Int(0),
            ScalarType::Uint => Scalar::Uint(0),
            ScalarType::Long => Scalar::Long(0),
            ScalarType::Ulong => Scalar::Ulong(0),
            ScalarType::Float => Scalar::Float(0),
            ScalarType::Double => Scalar::Double(0),
        }
    }

    /// Returns the type of the value.
    #[verifier::when_used_as_spec(spec_scalar_type)]
    pub fn scalar_type(&self) -> (ty: ScalarType)
        ensures
            ty == self.spec_scalar_type(),
    {
        match self {
            Scalar::Char(_) => ScalarType::Char,
            Scalar::Uchar(_) => ScalarType::Uchar,
            Scalar::Short(_) => ScalarType::Short,
            Scalar::Ushort(_) => ScalarType::Ushort,
            Scalar::Int(_) => ScalarType::Int,
            Scalar::Uint(_) => ScalarType::Uint,
            Scalar::Long(_) => ScalarType::Long,
            Scalar::Ulong(_) => ScalarType::Ulong,
            Scalar::Float(_) => ScalarType::Float,
            Scalar::Double(_) => ScalarType::Double,
        }
    }

    /// Returns the zero of `ty`, which stands in for a named scalar argument
    /// until a value is set.
    pub fn zero(ty: ScalarType) -> (scalar: Scalar)
        ensures
            scalar == Scalar::spec_zero(ty),
            scalar.spec_scalar_type() == ty,
    {
        match ty {
            ScalarType::Char => Scalar::Char(0),
            ScalarType::Uchar => Scalar::Uchar(0),
            ScalarType::Short => Scalar::Short(0),
            ScalarType::Ushort => Scalar::Ushort(0),
            ScalarType::Int => Scalar::Int(0),
            ScalarType::Uint => Scalar::Uint(0),
            ScalarType::Long => Scalar::Long(0),
            ScalarType::Ulong => Scalar::Ulong(0),
            ScalarType::Float => Scalar::Float(0),
            ScalarType::Double => Scalar::Double(0),
        }
    }
}

/// The kind of an argument slot.
#[derive(Clone, Copy, Debug, PartialEq, Eq, Hash, Structural)]
pub enum ArgKind {
    Scalar,
    Mem,
    MemNull,
    Local,
}

/// What is pushed to an argument slot of a kernel.
#[derive(Clone, Copy, Debug, PartialEq, Eq, Hash, Structural)]
pub enum KernelArg {
    /// A scalar, copied by the driver during the call.
    Scalar(Scalar),
    /// A memory object.
    Mem(MemRaw),
    /// The null memory object, for a buffer or image parameter left out.
    MemNull,
    /// Memory shared by a work group, of the given length in bytes. No host
    /// value goes with it.
    Local(usize),
}

impl KernelArg {
    /// The kind of slot that the argument makes.
    pub open spec fn spec_kind(&self) -> ArgKind {
        match *self {
            KernelArg::Scalar(_) => ArgKind::Scalar,
            KernelArg::Mem(_) => ArgKind::Mem,
            KernelArg::MemNull => ArgKind::MemNull,
            KernelArg::Local(_) => ArgKind::Local,
        }
    }

    /// The argument that stands for an optional memory object.
    pub open spec fn spec_from_mem(mem: Option<MemRaw>) -> KernelArg {
        match mem {
            Some(mem) => KernelArg::Mem(mem),
            None => KernelArg::MemNull,
        }
    }

    /// The argument that stands for an optional scalar of type `ty`.
    pub open spec fn spec_from_scalar(ty: ScalarType, scalar: Option<Scalar>) -> KernelArg {
        match scalar {
            Some(scalar) => KernelArg::Scalar(scalar),
            None => KernelArg::Scalar(Scalar::spec_zero(ty)),
        }
    }

    /// Returns the kind of slot that the argument makes.
    #[verifier::when_used_as_spec(spec_kind)]
    pub fn kind(&self) -> (kind: ArgKind)
        ensures
            kind == self.spec_kind(),
    {
        match self {
            KernelArg::Scalar(_) => ArgKind::Scalar,
            KernelArg::Mem(_) => ArgKind::Mem,
            KernelArg::MemNull => ArgKind::MemNull,
            KernelArg::Local(_) => ArgKind::Local,
        }
    }

    /// Returns the memory object as an argument, and the null memory object
    /// where there is none.
    pub fn from_mem(mem: Option<MemRaw>) -> (arg: KernelArg)
        ensures
            arg == KernelArg::spec_from_mem(mem),
    {
        match mem {
            Some(mem) => KernelArg::Mem(mem),
            None => KernelArg::MemNull,
        }
    }

    /// Returns the scalar as an argument, and the zero of `ty` where there
    /// is none.
    pub fn from_scalar(ty: ScalarType, scalar: Option<Scalar>) -> (arg: KernelArg)
        ensures
            arg == KernelArg::spec_from_scalar(ty, scalar),
    {
        match scalar {
            Some(scalar) => KernelArg::Scalar(scalar),
            None => KernelArg::Scalar(Scalar::zero(ty)),
        }
    }
}

/// A call that the embedding program is to make on the driver. Each is
/// answered with a [`Status`].
#[derive(Clone, Copy, Debug, PartialEq, Eq)]
pub enum DriverCall {
    /// Set the argument at `index` of `kernel` to `arg`.
    SetKernelArg { kernel: KernelRaw, index: u32, arg: KernelArg },
    /// Enqueue `kernel` on `queue` over `dims` axes. A `None` offset asks
    /// for the default origin, a `None` local size leaves the choice of the
    /// work group size to the driver.
    EnqueueKernel {
        queue: CommandQueueRaw,
        kernel: KernelRaw,
        dims: u32,
        offset: Option<[usize; 3]>,
        global: [usize; 3],
        local: Option<[usize; 3]>,
        wait: Option<EventListRaw>,
        signal: Option<EventListRaw>,
    },
}

/// A [`DriverCall`] as a mathematical value.
pub enum DriverCallView {
    SetKernelArg { kernel: KernelRaw, index: u32, arg: KernelArg },
    EnqueueKernel {
        queue: CommandQueueRaw,
        kernel: KernelRaw,
        dims: u32,
        offset: Option<Seq<usize>>,
        global: Seq<usize>,
        local: Option<Seq<usize>>,
        wait: Option<EventListRaw>,
        signal: Option<EventListRaw>,
    },
}

impl View for DriverCall {
    type V = DriverCallView;

    open spec fn view(&self) -> DriverCallView {
        match *self {
            DriverCall::SetKernelArg { kernel, index, arg } => DriverCallView::SetKernelArg {
                kernel,
                index,
                arg,
            },
            DriverCall::EnqueueKernel {
                queue,
                kernel,
                dims,
                offset,
                global,
                local,
                wait,
                signal,
            } => DriverCallView::EnqueueKernel {
                queue,
                kernel,
                dims,
                offset: raw_view(offset),
                global: global@,
                local: raw_view(local),
                wait,
                signal,
            },
        }
    }
}

impl DriverCallView {
    /// The error that a reply to the call stands for: none for success, and
    /// for any other status the error of the call's kind, with the status
    /// and what locates the fault.
    pub open spec fn failure(self, reply: Status) -> Option<ErrorView> {
        if reply.is_success() {
            None
        } else {
            Some(
                match self {
                    DriverCallView::SetKernelArg { index, .. } => ErrorView::SetArgFailed {
                        index,
                        status: reply,
                    },
                    DriverCallView::EnqueueKernel { .. } => ErrorView::EnqueueFailed {
                        status: reply,
                    },
                },
            )
        }
    }
}

impl DriverCall {
    /// Reads the status with which the driver answered the call: success is
    /// `Ok`, and any other status is the error of the call's kind. Nothing
    /// is tried again.
    pub fn interpret(&self, reply: Status) -> (outcome: Result<(), Error>)
        ensures
            outcome is Ok <==> self@.failure(reply) is None,
            outcome matches Err(e) ==> Some(e@) == self@.failure(reply),
    {
        if reply.is_success() {
            return Ok(());
        }
        match self {
            DriverCall::SetKernelArg { index, .. } => Err(
                Error::SetArgFailed { index: *index, status: reply },
            ),
            DriverCall::EnqueueKernel { .. } => Err(Error::EnqueueFailed { status: reply }),
        }
    }
}

} // verus!
