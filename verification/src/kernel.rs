//! The kernel handle: what is bound to a kernel and how it is dispatched.
//!
//! No function here talks to the driver. A step that needs the driver
//! says what to ask; the embedding program asks and hands the reply back,
//! to `complete` for the steps that build a handle and to
//! [`DriverCall::interpret`] for the others.

use vstd::prelude::*;
use crate::arg_table::{ArgTable, ArgTableView};
use crate::driver::{
    ArgKind, CommandQueueRaw, DriverCall, DriverCallView, EventListRaw, KernelArg, KernelRaw,
    MemRaw, ProgramRaw, Scalar, ScalarType,
};
use crate::error::{Error, ErrorView, Status};
use crate::work_dims::WorkDims;

verus! {

/// A [`Kernel`] as a mathematical value.
pub struct KernelView {
    pub obj_raw: KernelRaw,
    pub name: Seq<char>,
    pub args: ArgTableView,
    pub command_queue: CommandQueueRaw,
    pub gwo: WorkDims,
    pub gws: WorkDims,
    pub lws: WorkDims,
}

impl KernelView {
    /// What holds of every kernel handle: its slots can be counted in a
    /// `u32`, its names stand for slots of its own and no two for the same
    /// one, and its offset and local size are unspecified or have as many
    /// axes as its global size.
    pub open spec fn wf(self) -> bool {
        &&& self.args.slots.len() <= u32::MAX
        &&& self.args.names_distinct_slots()
        &&& self.gwo is Unspecified || self.gwo.spec_dim_count() == self.gws.spec_dim_count()
        &&& self.lws is Unspecified || self.lws.spec_dim_count() == self.gws.spec_dim_count()
    }

    /// The handle of a kernel just created: no argument bound, offset and
    /// local size unspecified.
    pub open spec fn created(
        name: Seq<char>,
        obj_raw: KernelRaw,
        command_queue: CommandQueueRaw,
        gws: WorkDims,
    ) -> KernelView {
        KernelView {
            obj_raw,
            name,
            args: ArgTableView::empty(),
            command_queue,
            gwo: WorkDims::Unspecified,
            gws,
            lws: WorkDims::Unspecified,
        }
    }

    /// The number of arguments bound, which is the index of the next one.
    pub open spec fn arg_count(self) -> nat {
        self.args.slots.len()
    }

    /// Whether the kernel can be dispatched: it can as soon as its global
    /// size is specified, with any number of arguments bound.
    pub open spec fn dispatchable(self) -> bool {
        !(self.gws is Unspecified)
    }

    /// The handle with another global offset.
    pub open spec fn with_gwo(self, gwo: WorkDims) -> KernelView {
        KernelView { gwo, ..self }
    }

    /// The handle with another local size.
    pub open spec fn with_lws(self, lws: WorkDims) -> KernelView {
        KernelView { lws, ..self }
    }

    /// The call that pushes `arg` to the slot at `index`.
    pub open spec fn set_arg(self, index: u32, arg: KernelArg) -> DriverCallView {
        DriverCallView::SetKernelArg { kernel: self.obj_raw, index, arg }
    }

    /// The call that binds `arg` as the next argument: it pushes `arg` to
    /// the slot whose index is the number of arguments bound so far.
    pub open spec fn new_arg(self, arg: KernelArg) -> DriverCallView {
        self.set_arg(self.arg_count() as u32, arg)
    }

    /// The handle once the driver has accepted the next argument: one more
    /// slot, and `name`, if there is one, standing for it.
    pub open spec fn bound(self, kind: ArgKind, name: Option<Seq<char>>) -> KernelView {
        let index = self.arg_count() as u32;
        let args = match name {
            Some(name) => self.args.allocate(kind).register_name(name, index),
            None => self.args.allocate(kind),
        };
        KernelView { args, ..self }
    }

    /// The call that pushes `arg` to the slot that `name` stands for, if it
    /// stands for one.
    pub open spec fn set_arg_named(
        self,
        name: Seq<char>,
        arg: KernelArg,
    ) -> Option<DriverCallView> {
        match self.args.resolve(name) {
            Some(index) => Some(self.set_arg(index, arg)),
            None => None,
        }
    }

    /// The call that dispatches the kernel, if its global size is
    /// specified: over as many axes as the global size has, with offset and
    /// local size left to the driver where they are unspecified.
    pub open spec fn enqueue(
        self,
        wait: Option<EventListRaw>,
        signal: Option<EventListRaw>,
    ) -> Option<DriverCallView> {
        match self.gws.spec_raw() {
            Some(global) => Some(
                DriverCallView::EnqueueKernel {
                    queue: self.command_queue,
                    kernel: self.obj_raw,
                    dims: self.gws.spec_dim_count(),
                    offset: self.gwo.spec_raw(),
                    global,
                    local: self.lws.spec_raw(),
                    wait,
                    signal,
                },
            ),
            None => None,
        }
    }

    /// Binding an argument, named or not, keeps a handle well formed as
    /// long as the index of the new slot fits in a `u32`.
    pub proof fn lemma_bound_wf(self, kind: ArgKind, name: Option<Seq<char>>)
        requires
            self.wf(),
            self.arg_count() < u32::MAX,
        ensures
            self.bound(kind, name).wf(),
    {
        let after = self.bound(kind, name);
        assert forall|n: Seq<char>| #[trigger]
            after.args.names.contains_key(n) implies after.args.names[n]
            < after.args.slots.len() by {
            if self.args.names.contains_key(n) {
                assert(self.args.names[n] < self.args.slots.len());
            }
        }
        assert forall|n: Seq<char>, m: Seq<char>|
            after.args.names.contains_key(n) && after.args.names.contains_key(m) && n
                != m implies #[trigger] after.args.names[n] != #[trigger] after.args.names[m] by {
            if self.args.names.contains_key(n) {
                assert(self.args.names[n] < self.args.slots.len());
            }
            if self.args.names.contains_key(m) {
                assert(self.args.names[m] < self.args.slots.len());
            }
        }
    }
}

/// A kernel handle: the driver's kernel object, the queue it runs on, its
/// argument slots and their names, and its work geometry.
///
/// The handle is not to be shared where arguments are bound or set: the
/// driver does not allow that from two threads at once, and the methods
/// that do so ask for the handle itself or for `&mut`.
#[derive(Debug)]
pub struct Kernel {
    obj_raw: KernelRaw,
    name: String,
    args: ArgTable,
    command_queue: CommandQueueRaw,
    gwo: WorkDims,
    gws: WorkDims,
    lws: WorkDims,
}

impl View for Kernel {
    type V = KernelView;

    closed spec fn view(&self) -> KernelView {
        KernelView {
            obj_raw: self.obj_raw,
            name: self.name@,
            args: self.args@,
            command_queue: self.command_queue,
            gwo: self.gwo,
            gws: self.gws,
            lws: self.lws,
        }
    }
}

/// A kernel that waits for its kernel object: the program named by
/// `program` is to be asked for a kernel object for the entry point `name`.
#[derive(Debug)]
pub struct PendingKernel {
    pub name: String,
    pub program: ProgramRaw,
    pub command_queue: CommandQueueRaw,
    pub gws: WorkDims,
}

impl PendingKernel {
    /// Takes the program's answer. With a kernel object it returns the
    /// handle, with no argument bound and with offset and local size
    /// unspecified; with a status it returns the creation error with that
    /// status and the entry point's name.
    pub fn complete(self, reply: Result<KernelRaw, Status>) -> (kernel: Result<Kernel, Error>)
        ensures
            reply matches Ok(obj_raw) ==> {
                &&& kernel matches Ok(k)
                &&& k@ == KernelView::created(self.name@, obj_raw, self.command_queue, self.gws)
                &&& k@.wf()
            },
            reply matches Err(status) ==> {
                &&& kernel matches Err(e)
                &&& e@ == (ErrorView::KernelCreationFailed { name: self.name@, status })
            },
    {
        match reply {
            Ok(obj_raw) => {
                let args = ArgTable::new();
                assert(args@.names_distinct_slots());
                Ok(
                    Kernel {
                        obj_raw,
                        name: self.name,
                        args,
                        command_queue: self.command_queue,
                        gwo: WorkDims::Unspecified,
                        gws: self.gws,
                        lws: WorkDims::Unspecified,
                    },
                )
            },
            Err(status) => Err(Error::KernelCreationFailed { name: self.name, status }),
        }
    }
}

/// A [`PendingArg`] as a mathematical value.
pub struct PendingArgView {
    pub kernel: KernelView,
    pub arg: KernelArg,
    pub name: Option<Seq<char>>,
}

impl PendingArgView {
    /// The call that binds the argument.
    pub open spec fn call(self) -> DriverCallView {
        self.kernel.new_arg(self.arg)
    }

    /// The handle once the driver has accepted the argument.
    pub open spec fn bound(self) -> KernelView {
        self.kernel.bound(self.arg.spec_kind(), self.name)
    }
}

/// A kernel handle with one more argument on its way to the driver: the
/// handle as it was before, the argument, and the name it is to get.
#[derive(Debug)]
pub struct PendingArg {
    kernel: Kernel,
    arg: KernelArg,
    name: Option<String>,
}

impl View for PendingArg {
    type V = PendingArgView;

    closed spec fn view(&self) -> PendingArgView {
        PendingArgView {
            kernel: self.kernel@,
            arg: self.arg,
            name: match self.name {
                Some(name) => Some(name@),
                None => None,
            },
        }
    }
}

impl PendingArg {
    #[verifier::type_invariant]
    spec fn inv(&self) -> bool {
        self.kernel@.arg_count() < u32::MAX
    }

    /// Returns the call to make: set the argument at the index that is the
    /// number of arguments bound so far.
    pub fn call(&self) -> (call: DriverCall)
        ensures
            call@ == self@.call(),
    {
        self.kernel.set_arg(self.kernel.arg_count(), self.arg)
    }

    /// Takes the driver's answer to [`PendingArg::call`]. On success it
    /// returns the handle with the argument bound: one argument more, and
    /// the name standing for the new slot. On any other status it returns
    /// the error with that status and the index of the slot.
    pub fn complete(self, reply: Status) -> (kernel: Result<Kernel, Error>)
        ensures
            reply.is_success() ==> {
                &&& kernel matches Ok(k)
                &&& k@ == self@.bound()
                &&& k@.arg_count() == self@.kernel.arg_count() + 1
                &&& k@.wf()
            },
            !reply.is_success() ==> {
                &&& kernel matches Err(e)
                &&& e@ == (ErrorView::SetArgFailed {
                    index: self@.kernel.arg_count() as u32,
                    status: reply,
                })
            },
    {
        proof {
            use_type_invariant(&self);
            use_type_invariant(&self.kernel);
            self.kernel@.lemma_bound_wf(self.arg.spec_kind(), self@.name);
        }
        let PendingArg { kernel, arg, name } = self;
        let Kernel { obj_raw, name: kernel_name, args, command_queue, gwo, gws, lws } = kernel;
        let mut args = args;
        if !reply.is_success() {
            return Err(Error::SetArgFailed { index: args.len(), status: reply });
        }
        let index = args.allocate(arg.kind());
        match name {
            Some(name) => {
                args.register_name(name.as_str(), index);
            },
            None => {},
        }
        Ok(Kernel { obj_raw, name: kernel_name, args, command_queue, gwo, gws, lws })
    }
}

impl Kernel {
    #[verifier::type_invariant]
    spec fn inv(&self) -> bool {
        self@.wf()
    }

    /// Starts a kernel for the entry point `name` of `program`, to run on
    /// `queue` with the global work size `gws`. The program has to give the
    /// kernel object first: see [`PendingKernel`].
    pub fn new(
        name: &str,
        program: &ProgramRaw,
        queue: &CommandQueueRaw,
        gws: WorkDims,
    ) -> (pending: PendingKernel)
        ensures
            pending.name@ == name@,
            pending.program == *program,
            pending.command_queue == *queue,
            pending.gws == gws,
    {
        PendingKernel { name: name.to_owned(), program: *program, command_queue: *queue, gws }
    }

    /// Whether `dims` can become the global offset or the local size of the
    /// kernel: it can where it has as many axes as the global size.
    pub fn accepts_dims(&self, dims: &WorkDims) -> (accepted: bool)
        ensures
            accepted == (dims.spec_dim_count() == self@.gws.spec_dim_count()),
    {
        dims.dim_count() == self.gws.dim_count()
    }

    /// Sets the global work offset. An offset with another number of axes
    /// than the global size is a defect of the caller: the handle takes
    /// none, and no call goes to the driver.
    pub fn gwo(self, gwo: WorkDims) -> (kernel: Kernel)
        requires
            gwo.spec_dim_count() == self@.gws.spec_dim_count(),
        ensures
            kernel@ == self@.with_gwo(gwo),
            kernel@.wf(),
    {
        proof {
            use_type_invariant(&self);
        }
        let Kernel { obj_raw, name, args, command_queue, gwo: _, gws, lws } = self;
        Kernel { obj_raw, name, args, command_queue, gwo, gws, lws }
    }

    /// Sets the local work size. A size with another number of axes than
    /// the global size is a defect of the caller: the handle takes none,
    /// and no call goes to the driver.
    pub fn lws(self, lws: WorkDims) -> (kernel: Kernel)
        requires
            lws.spec_dim_count() == self@.gws.spec_dim_count(),
        ensures
            kernel@ == self@.with_lws(lws),
            kernel@.wf(),
    {
        proof {
            use_type_invariant(&self);
        }
        let Kernel { obj_raw, name, args, command_queue, gwo, gws, lws: _ } = self;
        Kernel { obj_raw, name, args, command_queue, gwo, gws, lws }
    }

    /// Binds a memory object as the next argument, and the null memory
    /// object where `buffer` is `None`.
    pub fn arg_buf(self, buffer: Option<MemRaw>) -> (pending: PendingArg)
        requires
            self@.arg_count() < u32::MAX,
        ensures
            pending@ == (PendingArgView {
                kernel: self@,
                arg: KernelArg::spec_from_mem(buffer),
                name: None,
            }),
    {
        self.new_arg_buf(buffer, None)
    }

    /// Binds a scalar as the next argument.
    pub fn arg_scl(self, scalar: Scalar) -> (pending: PendingArg)
        requires
            self@.arg_count() < u32::MAX,
        ensures
            pending@ == (PendingArgView {
                kernel: self@,
                arg: KernelArg::Scalar(scalar),
                name: None,
            }),
    {
        self.new_arg_scl(scalar.scalar_type(), Some(scalar), None)
    }

    /// Binds memory shared by a work group as the next argument: room for
    /// `length` values of type `ty`. No host value goes with it.
    pub fn arg_loc(self, ty: ScalarType, length: usize) -> (pending: PendingArg)
        requires
            self@.arg_count() < u32::MAX,
            length * ty.spec_size() <= usize::MAX,
        ensures
            pending@ == (PendingArgView {
                kernel: self@,
                arg: KernelArg::Local((length * ty.spec_size()) as usize),
                name: None,
            }),
    {
        self.new_arg_loc(ty, length)
    }

    /// Binds a scalar as the next argument and registers `name` for it, so
    /// that [`Kernel::set_arg_scl_named`] can set it later. Where
    /// `scalar_opt` is `None` the zero of `ty` is bound in its place, and
    /// the argument reads as zero until it is set.
    pub fn arg_scl_named(
        self,
        name: &'static str,
        ty: ScalarType,
        scalar_opt: Option<Scalar>,
    ) -> (pending: PendingArg)
        requires
            self@.arg_count() < u32::MAX,
        ensures
            pending@ == (PendingArgView {
                kernel: self@,
                arg: KernelArg::spec_from_scalar(ty, scalar_opt),
                name: Some(name@),
            }),
    {
        self.new_arg_scl(ty, scalar_opt, Some(name.to_owned()))
    }

    /// Binds a memory object as the next argument, the null memory object
    /// where `buffer_opt` is `None`, and registers `name` for it, so that
    /// [`Kernel::set_arg_buf_named`] can set it later.
    pub fn arg_buf_named(
        self,
        name: &'static str,
        buffer_opt: Option<MemRaw>,
    ) -> (pending: PendingArg)
        requires
            self@.arg_count() < u32::MAX,
        ensures
            pending@ == (PendingArgView {
                kernel: self@,
                arg: KernelArg::spec_from_mem(buffer_opt),
                name: Some(name@),
            }),
    {
        self.new_arg_buf(buffer_opt, Some(name.to_owned()))
    }

    /// Sets the scalar argument registered as `name`: returns the call that
    /// pushes `scalar` to its slot, or the invalid-name error, and then no
    /// call, where the name was never registered. The handle stays as it
    /// is.
    pub fn set_arg_scl_named(
        &mut self,
        name: &'static str,
        scalar: Scalar,
    ) -> (call: Result<DriverCall, Error>)
        ensures
            final(self)@ == old(self)@,
            match old(self)@.set_arg_named(name@, KernelArg::Scalar(scalar)) {
                Some(expected) => call matches Ok(c) && c@ == expected,
                None => call matches Err(e) && e@ == (ErrorView::InvalidArgumentName {
                    name: name@,
                }),
            },
    {
        let arg_idx = match self.resolve_named_arg_idx(name) {
            Ok(arg_idx) => arg_idx,
            Err(e) => { return Err(e); },
        };
        Ok(self.set_arg(arg_idx, KernelArg::Scalar(scalar)))
    }

    /// Sets the memory object argument registered as `name`: returns the
    /// call that pushes the memory object to its slot, the null memory
    /// object where `buffer_opt` is `None`, or the invalid-name error, and
    /// then no call, where the name was never registered. The handle stays
    /// as it is.
    pub fn set_arg_buf_named(
        &mut self,
        name: &'static str,
        buffer_opt: Option<MemRaw>,
    ) -> (call: Result<DriverCall, Error>)
        ensures
            final(self)@ == old(self)@,
            match old(self)@.set_arg_named(name@, KernelArg::spec_from_mem(buffer_opt)) {
                Some(expected) => call matches Ok(c) && c@ == expected,
                None => call matches Err(e) && e@ == (ErrorView::InvalidArgumentName {
                    name: name@,
                }),
            },
    {
        let arg_idx = match self.resolve_named_arg_idx(name) {
            Ok(arg_idx) => arg_idx,
            Err(e) => { return Err(e); },
        };
        match buffer_opt {
            Some(buffer) => Ok(self.set_arg(arg_idx, KernelArg::Mem(buffer))),
            None => Ok(self.set_arg(arg_idx, KernelArg::MemNull)),
        }
    }

    /// Returns the index of the slot that `name` stands for, which is below
    /// the number of arguments, or the invalid-name error with the name
    /// where it was never registered. The driver is not asked.
    pub fn resolve_named_arg_idx(&self, name: &str) -> (index: Result<u32, Error>)
        ensures
            match self@.args.resolve(name@) {
                Some(i) => index == Ok::<u32, Error>(i) && i < self@.arg_count(),
                None => index matches Err(e) && e@ == (ErrorView::InvalidArgumentName {
                    name: name@,
                }),
            },
    {
        proof {
            use_type_invariant(self);
        }
        self.args.resolve(name)
    }

    /// Dispatches the kernel on its queue: returns the one call to make,
    /// or, where the global size is unspecified, the error and no call.
    /// The call names the queue and the kernel object, takes the number of
    /// axes and the global size from the global size, leaves the origin and
    /// the work group size to the driver where offset and local size are
    /// unspecified, and hands both event lists on as they are. The handle
    /// keeps no record of it.
    pub fn enqueue(
        &self,
        wait_list: Option<EventListRaw>,
        dest_list: Option<EventListRaw>,
    ) -> (call: Result<DriverCall, Error>)
        ensures
            match self@.enqueue(wait_list, dest_list) {
                Some(expected) => call matches Ok(c) && c@ == expected,
                None => call == Err::<DriverCall, Error>(Error::DimensionsUnspecified),
            },
            self@.dispatchable() <==> call is Ok,
    {
        let global = match self.gws.as_raw() {
            Some(global) => global,
            None => { return Err(Error::DimensionsUnspecified); },
        };
        Ok(
            DriverCall::EnqueueKernel {
                queue: self.command_queue,
                kernel: self.obj_raw,
                dims: self.gws.dim_count(),
                offset: self.gwo.as_raw(),
                global,
                local: self.lws.as_raw(),
                wait: wait_list,
                signal: dest_list,
            },
        )
    }

    /// Returns the number of arguments bound to the kernel.
    pub fn arg_count(&self) -> (count: u32)
        ensures
            count == self@.arg_count(),
    {
        self.args.len()
    }

    /// Returns the name of the entry point that the kernel was made for.
    pub fn name(&self) -> (name: &str)
        ensures
            name@ == self@.name,
    {
        self.name.as_str()
    }

    /// Returns the driver's kernel object, for those who bind what this
    /// handle does not know of.
    pub fn raw_as_ref(&self) -> (obj_raw: &KernelRaw)
        ensures
            *obj_raw == self@.obj_raw,
    {
        &self.obj_raw
    }

    fn new_arg_buf(self, buffer_opt: Option<MemRaw>, name: Option<String>) -> (pending: PendingArg)
        requires
            self@.arg_count() < u32::MAX,
        ensures
            pending@ == (PendingArgView {
                kernel: self@,
                arg: KernelArg::spec_from_mem(buffer_opt),
                name: match name {
                    Some(name) => Some(name@),
                    None => None,
                },
            }),
    {
        match buffer_opt {
            Some(buffer) => self.new_arg(KernelArg::Mem(buffer), name),
            None => self.new_arg(KernelArg::MemNull, name),
        }
    }

    fn new_arg_scl(
        self,
        ty: ScalarType,
        scalar_opt: Option<Scalar>,
        name: Option<String>,
    ) -> (pending: PendingArg)
        requires
            self@.arg_count() < u32::MAX,
        ensures
            pending@ == (PendingArgView {
                kernel: self@,
                arg: KernelArg::spec_from_scalar(ty, scalar_opt),
                name: match name {
                    Some(name) => Some(name@),
                    None => None,
                },
            }),
    {
        let scalar = match scalar_opt {
            Some(scl) => scl,
            None => Scalar::zero(ty),
        };
        self.new_arg(KernelArg::Scalar(scalar), name)
    }

    fn new_arg_loc(self, ty: ScalarType, length: usize) -> (pending: PendingArg)
        requires
            self@.arg_count() < u32::MAX,
            length * ty.spec_size() <= usize::MAX,
        ensures
            pending@ == (PendingArgView {
                kernel: self@,
                arg: KernelArg::Local((length * ty.spec_size()) as usize),
                name: None,
            }),
    {
        self.new_arg(KernelArg::Local(length * ty.size()), None)
    }

    fn new_arg(self, arg: KernelArg, name: Option<String>) -> (pending: PendingArg)
        requires
            self@.arg_count() < u32::MAX,
        ensures
            pending@ == (PendingArgView {
                kernel: self@,
                arg,
                name: match name {
                    Some(name) => Some(name@),
                    None => None,
                },
            }),
    {
        PendingArg { kernel: self, arg, name }
    }

    fn set_arg(&self, arg_idx: u32, arg: KernelArg) -> (call: DriverCall)
        ensures
            call@ == self@.set_arg(arg_idx, arg),
    {
        DriverCall::SetKernelArg { kernel: self.obj_raw, index: arg_idx, arg }
    }
}

} // verus!
