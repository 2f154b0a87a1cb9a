//! What holds of work dimensions and of kernel handles in every state,
//! stated over their mathematical values.

use vstd::prelude::*;
use crate::driver::{DriverCallView, EventListRaw, KernelArg, KernelRaw, CommandQueueRaw, Scalar};
use crate::error::{ErrorView, Status};
use crate::kernel::KernelView;
use crate::work_dims::WorkDims;

verus! {

/// Dimensions have no axis exactly when they are unspecified, and exactly
/// then they have no size array; all others have one to three axes.
pub proof fn law_unspecified_has_no_axes(d: WorkDims)
    ensures
        d.spec_dim_count() == 0 <==> d is Unspecified,
        d.spec_raw() is None <==> d is Unspecified,
        !(d is Unspecified) <==> 1 <= d.spec_dim_count() <= 3,
{
}

/// The length of specified dimensions is the product of their three
/// components, where an axis that is not populated counts as 1.
pub proof fn law_len_is_product(d: WorkDims)
    requires
        !(d is Unspecified),
    ensures
        d.spec_raw() is Some,
        d.spec_raw()->0.len() == 3,
        d.spec_len() == d.spec_raw()->0[0] * d.spec_raw()->0[1] * d.spec_raw()->0[2],
{
    let c = d.spec_raw()->0;
    match d {
        WorkDims::Unspecified => {},
        WorkDims::One(x) => {
            assert(x == x * 1 * 1) by (nonlinear_arith);
        },
        WorkDims::Two(x, y) => {
            assert(x * y == x * y * 1) by (nonlinear_arith);
        },
        WorkDims::Three(x, y, z) => {},
    }
}

/// A kernel handle is well formed when it is created, with no argument
/// bound, and with offset and local size left to the driver.
pub proof fn law_created_is_well_formed(
    name: Seq<char>,
    obj_raw: KernelRaw,
    command_queue: CommandQueueRaw,
    gws: WorkDims,
)
    ensures
        KernelView::created(name, obj_raw, command_queue, gws).wf(),
        KernelView::created(name, obj_raw, command_queue, gws).arg_count() == 0,
        KernelView::created(name, obj_raw, command_queue, gws).gwo is Unspecified,
        KernelView::created(name, obj_raw, command_queue, gws).lws is Unspecified,
        KernelView::created(name, obj_raw, command_queue, gws).dispatchable() <==> !(gws
            is Unspecified),
{
}

/// An offset or a local size with as many axes as the global size keeps a
/// handle well formed, and changes nothing else of it.
pub proof fn law_geometry_keeps_well_formed(k: KernelView, dims: WorkDims)
    requires
        k.wf(),
        dims.spec_dim_count() == k.gws.spec_dim_count(),
    ensures
        k.with_gwo(dims).wf(),
        k.with_lws(dims).wf(),
        k.with_gwo(dims).args == k.args,
        k.with_lws(dims).args == k.args,
        k.with_gwo(dims).gws == k.gws,
        k.with_lws(dims).gws == k.gws,
{
}

/// Binding an argument pushes it to the slot whose index is the number of
/// arguments bound before, and raises that number by exactly one. The slots
/// bound before keep their kinds, the new slot has the kind of the
/// argument, and a name given to it stands for it.
pub proof fn law_bind_takes_next_index(k: KernelView, arg: KernelArg, name: Option<Seq<char>>)
    requires
        k.wf(),
        k.arg_count() < u32::MAX,
    ensures
        k.new_arg(arg) == (DriverCallView::SetKernelArg {
            kernel: k.obj_raw,
            index: k.arg_count() as u32,
            arg,
        }),
        k.bound(arg.spec_kind(), name).wf(),
        k.bound(arg.spec_kind(), name).dispatchable() == k.dispatchable(),
        k.bound(arg.spec_kind(), name).arg_count() == k.arg_count() + 1,
        k.bound(arg.spec_kind(), name).args.slots[k.arg_count() as int] == arg.spec_kind(),
        forall|i: int|
            0 <= i < k.arg_count() ==> k.bound(arg.spec_kind(), name).args.slots[i]
                == k.args.slots[i],
        name matches Some(n) ==> k.bound(arg.spec_kind(), name).args.resolve(n) == Some(
            k.arg_count() as u32,
        ),
{
    k.lemma_bound_wf(arg.spec_kind(), name);
}

/// A name keeps the slot it stands for while other arguments are bound,
/// and a name that was never registered stays unregistered unless the new
/// argument takes it.
pub proof fn law_names_are_stable(
    k: KernelView,
    arg: KernelArg,
    name: Option<Seq<char>>,
    other: Seq<char>,
)
    requires
        k.wf(),
        k.arg_count() < u32::MAX,
        name != Some(other),
    ensures
        k.bound(arg.spec_kind(), name).args.resolve(other) == k.args.resolve(other),
{
}

/// A scalar bound under a name and set again under that name goes to the
/// same slot both times: the driver is asked to set the argument at the
/// index the binding took, first to `first` and then to `second`.
pub proof fn law_named_scalar_keeps_its_slot(
    k: KernelView,
    name: Seq<char>,
    first: Scalar,
    second: Scalar,
)
    requires
        k.wf(),
        k.arg_count() < u32::MAX,
    ensures
        ({
            let index = k.arg_count() as u32;
            let bound = k.bound(KernelArg::Scalar(first).spec_kind(), Some(name));
            &&& k.new_arg(KernelArg::Scalar(first)) == (DriverCallView::SetKernelArg {
                kernel: k.obj_raw,
                index,
                arg: KernelArg::Scalar(first),
            })
            &&& bound.args.resolve(name) == Some(index)
            &&& bound.set_arg_named(name, KernelArg::Scalar(second)) == Some(
                DriverCallView::SetKernelArg {
                    kernel: k.obj_raw,
                    index,
                    arg: KernelArg::Scalar(second),
                },
            )
            &&& bound.arg_count() == k.arg_count() + 1
        }),
{
}

/// Setting an argument under a name that was never registered asks
/// nothing of the driver.
pub proof fn law_unregistered_name_sets_nothing(k: KernelView, name: Seq<char>, arg: KernelArg)
    ensures
        k.args.names.contains_key(name) <==> k.set_arg_named(name, arg) is Some,
        k.args.resolve(name) is None <==> k.set_arg_named(name, arg) is None,
{
}

/// A kernel can be dispatched exactly when its global size is specified,
/// and the call then has the axes and the components of the global size.
pub proof fn law_enqueue_needs_global_size(
    k: KernelView,
    wait: Option<EventListRaw>,
    signal: Option<EventListRaw>,
)
    ensures
        k.enqueue(wait, signal) is None <==> k.gws is Unspecified,
        k.enqueue(wait, signal) is Some <==> k.dispatchable(),
        k.enqueue(wait, signal) matches Some(call) ==> {
            &&& call matches DriverCallView::EnqueueKernel { dims, global, offset, local, .. }
            &&& 1 <= dims <= 3
            &&& dims == k.gws.spec_dim_count()
            &&& Some(global) == k.gws.spec_raw()
            &&& offset is None <==> k.gwo is Unspecified
            &&& local is None <==> k.lws is Unspecified
        },
{
}

/// Dispatching again, with the same lists and no change to the handle in
/// between, asks for the same call again, and what comes of each of the two
/// calls is read from its own reply alone: a success is a success whatever
/// the other reply was, and any other status is the enqueue error with that
/// status.
pub proof fn law_enqueue_is_repeatable(
    k: KernelView,
    wait: Option<EventListRaw>,
    signal: Option<EventListRaw>,
    first: Status,
    second: Status,
)
    requires
        k.dispatchable(),
    ensures
        k.enqueue(wait, signal) matches Some(call) && {
            &&& call.failure(first) == (if first.is_success() {
                None
            } else {
                Some(ErrorView::EnqueueFailed { status: first })
            })
            &&& call.failure(second) == (if second.is_success() {
                None
            } else {
                Some(ErrorView::EnqueueFailed { status: second })
            })
        },
{
}

} // verus!
