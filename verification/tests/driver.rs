use ocl::{
    ArgKind, ArgTable, CommandQueueRaw, DriverCall, Error, KernelArg, KernelRaw, MemRaw, Scalar,
    ScalarType, Status,
};

const ALL_TYPES: [ScalarType; 10] = [
    ScalarType::Char,
    ScalarType::Uchar,
    ScalarType::Short,
    ScalarType::Ushort,
    ScalarType::Int,
    ScalarType::Uint,
    ScalarType::Long,
    ScalarType::Ulong,
    ScalarType::Float,
    ScalarType::Double,
];

#[test]
fn status_zero_is_success() {
    assert!(Status::success().is_success());
    assert_eq!(Status::success(), Status::new(0));
    assert_eq!(Status::new(0).code, 0);
    assert!(!Status::new(-5).is_success());
    assert!(!Status::new(1).is_success());
    assert!(!Status::new(i32::MIN).is_success());
}

#[test]
fn scalar_types_have_their_widths() {
    let widths: Vec<usize> = ALL_TYPES.iter().map(|ty| ty.size()).collect();
    assert_eq!(widths, vec![1, 1, 2, 2, 4, 4, 8, 8, 4, 8]);
}

#[test]
fn zero_has_the_type_asked_for() {
    for ty in ALL_TYPES {
        assert_eq!(Scalar::zero(ty).scalar_type(), ty);
    }
    assert_eq!(Scalar::zero(ScalarType::Int), Scalar::Int(0));
    assert_eq!(Scalar::zero(ScalarType::Uchar), Scalar::Uchar(0));
    assert_eq!(Scalar::zero(ScalarType::Float), Scalar::Float(0));
    assert_eq!(Scalar::zero(ScalarType::Double), Scalar::Double(0));
    assert_eq!(Scalar::zero(ScalarType::Long), Scalar::Long(0));
}

#[test]
fn scalar_type_follows_the_variant() {
    assert_eq!(Scalar::Char(-1).scalar_type(), ScalarType::Char);
    assert_eq!(Scalar::Ushort(9).scalar_type(), ScalarType::Ushort);
    assert_eq!(Scalar::Short(-9).scalar_type(), ScalarType::Short);
    assert_eq!(Scalar::Uint(9).scalar_type(), ScalarType::Uint);
    assert_eq!(Scalar::Ulong(9).scalar_type(), ScalarType::Ulong);
    assert_eq!(Scalar::Float(1.5f32.to_bits()).scalar_type(), ScalarType::Float);
    assert_eq!(Scalar::Double(1.5f64.to_bits()).scalar_type(), ScalarType::Double);
}

#[test]
fn kernel_arg_kinds() {
    assert_eq!(KernelArg::Scalar(Scalar::Int(1)).kind(), ArgKind::Scalar);
    assert_eq!(KernelArg::Mem(MemRaw { id: 3 }).kind(), ArgKind::Mem);
    assert_eq!(KernelArg::MemNull.kind(), ArgKind::MemNull);
    assert_eq!(KernelArg::Local(64).kind(), ArgKind::Local);
}

#[test]
fn kernel_arg_from_optional_values() {
    assert_eq!(KernelArg::from_mem(Some(MemRaw { id: 3 })), KernelArg::Mem(MemRaw { id: 3 }));
    assert_eq!(KernelArg::from_mem(None), KernelArg::MemNull);
    assert_eq!(
        KernelArg::from_scalar(ScalarType::Int, Some(Scalar::Int(4))),
        KernelArg::Scalar(Scalar::Int(4))
    );
    assert_eq!(
        KernelArg::from_scalar(ScalarType::Ushort, None),
        KernelArg::Scalar(Scalar::Ushort(0))
    );
}

#[test]
fn interpret_success_is_ok_for_every_call() {
    let calls = [
        DriverCall::SetKernelArg {
            kernel: KernelRaw { id: 2 },
            index: 3,
            arg: KernelArg::MemNull,
        },
        DriverCall::EnqueueKernel {
            queue: CommandQueueRaw { id: 4 },
            kernel: KernelRaw { id: 2 },
            dims: 1,
            offset: None,
            global: [8, 1, 1],
            local: None,
            wait: None,
            signal: None,
        },
    ];
    for call in calls.iter() {
        assert_eq!(call.interpret(Status::success()), Ok(()));
    }
}

#[test]
fn interpret_failure_names_the_call() {
    let set = DriverCall::SetKernelArg {
        kernel: KernelRaw { id: 2 },
        index: 3,
        arg: KernelArg::Local(16),
    };
    assert_eq!(
        set.interpret(Status::new(-49)),
        Err(Error::SetArgFailed { index: 3, status: Status::new(-49) })
    );
    let enqueue = DriverCall::EnqueueKernel {
        queue: CommandQueueRaw { id: 4 },
        kernel: KernelRaw { id: 2 },
        dims: 2,
        offset: None,
        global: [8, 8, 1],
        local: Some([3, 3, 1]),
        wait: None,
        signal: None,
    };
    assert_eq!(
        enqueue.interpret(Status::new(-54)),
        Err(Error::EnqueueFailed { status: Status::new(-54) })
    );
}

#[test]
fn api_status_is_there_for_driver_errors_only() {
    let status = Status::new(-5);
    assert_eq!(
        Error::KernelCreationFailed { name: String::from("k"), status }.api_status(),
        Some(status)
    );
    assert_eq!(Error::SetArgFailed { index: 0, status }.api_status(), Some(status));
    assert_eq!(Error::EnqueueFailed { status }.api_status(), Some(status));
    assert_eq!(Error::InvalidArgumentName { name: String::from("x") }.api_status(), None);
    assert_eq!(Error::DimensionsUnspecified.api_status(), None);
}

#[test]
fn table_allocates_indices_in_order() {
    let mut table = ArgTable::new();
    assert_eq!(table.len(), 0);
    assert_eq!(table.kind(0), None);
    assert_eq!(table.allocate(ArgKind::Mem), 0);
    assert_eq!(table.allocate(ArgKind::Scalar), 1);
    assert_eq!(table.allocate(ArgKind::Local), 2);
    assert_eq!(table.allocate(ArgKind::MemNull), 3);
    assert_eq!(table.len(), 4);
    assert_eq!(table.kind(0), Some(ArgKind::Mem));
    assert_eq!(table.kind(1), Some(ArgKind::Scalar));
    assert_eq!(table.kind(2), Some(ArgKind::Local));
    assert_eq!(table.kind(3), Some(ArgKind::MemNull));
    assert_eq!(table.kind(4), None);
    assert_eq!(table.kind(u32::MAX), None);
}

#[test]
fn table_resolves_registered_names() {
    let mut table = ArgTable::new();
    let a = table.allocate(ArgKind::Scalar);
    let b = table.allocate(ArgKind::Mem);
    table.register_name("alpha", a);
    table.register_name("beta", b);
    assert_eq!(table.resolve("alpha"), Ok(0));
    assert_eq!(table.resolve("beta"), Ok(1));
    assert_eq!(table.len(), 2);
}

#[test]
fn table_rejects_unregistered_names() {
    let mut table = ArgTable::new();
    assert_eq!(
        table.resolve("alpha"),
        Err(Error::InvalidArgumentName { name: String::from("alpha") })
    );
    let a = table.allocate(ArgKind::Scalar);
    table.register_name("alpha", a);
    assert_eq!(
        table.resolve("alph"),
        Err(Error::InvalidArgumentName { name: String::from("alph") })
    );
    assert_eq!(table.resolve(""), Err(Error::InvalidArgumentName { name: String::new() }));
}

#[test]
fn table_last_registration_wins() {
    let mut table = ArgTable::new();
    let a = table.allocate(ArgKind::Scalar);
    let b = table.allocate(ArgKind::Scalar);
    let c = table.allocate(ArgKind::Scalar);
    table.register_name("x", a);
    table.register_name("y", b);
    table.register_name("x", c);
    assert_eq!(table.resolve("x"), Ok(2));
    assert_eq!(table.resolve("y"), Ok(1));
    table.register_name("y", a);
    assert_eq!(table.resolve("y"), Ok(0));
    assert_eq!(table.resolve("x"), Ok(2));
    assert_eq!(table.len(), 3);
}
