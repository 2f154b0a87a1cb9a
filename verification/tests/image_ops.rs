use ocl::{
    CommandQueueRaw, DriverCall, Kernel, KernelArg, KernelRaw, MemRaw, ProgramRaw, Scalar,
    ScalarType, Status, WorkDims,
};

const ADDEND: [i32; 4] = [1; 4];
const DIMS: [usize; 3] = [20, 20, 20];
const TEST_ITERS: i32 = 30;

const INVALID_KERNEL_NAME: i32 = -46;
const INVALID_ARG_INDEX: i32 = -49;
const INVALID_MEM_OBJECT: i32 = -38;
const INVALID_KERNEL_ARGS: i32 = -52;

/// A device that knows two kernels: `add` writes every element of its
/// source image plus an addend to its destination image, and `fill` writes
/// a pixel value to every element of its image.
struct Device {
    images: Vec<Vec<i32>>,
    kernels: Vec<(String, Vec<Option<KernelArg>>)>,
    dispatches: usize,
}

impl Device {
    fn new() -> Device {
        Device { images: Vec::new(), kernels: Vec::new(), dispatches: 0 }
    }

    fn create_image(&mut self, data: &[i32]) -> MemRaw {
        self.images.push(data.to_vec());
        MemRaw { id: self.images.len() - 1 }
    }

    fn write_image(&mut self, image: MemRaw, data: &[i32]) {
        self.images[image.id].copy_from_slice(data);
    }

    fn read_image(&self, image: MemRaw, data: &mut [i32]) {
        data.copy_from_slice(&self.images[image.id]);
    }

    fn copy_image(&mut self, src: MemRaw, dst: MemRaw) {
        let data = self.images[src.id].clone();
        self.images[dst.id].copy_from_slice(&data);
    }

    fn create_kernel(&mut self, name: &str) -> Result<KernelRaw, Status> {
        match name {
            "add" => self.kernels.push((String::from(name), vec![None; 3])),
            "fill" => self.kernels.push((String::from(name), vec![None; 2])),
            _ => return Err(Status::new(INVALID_KERNEL_NAME)),
        }
        Ok(KernelRaw { id: self.kernels.len() - 1 })
    }

    fn perform(&mut self, call: &DriverCall) -> Status {
        match call {
            DriverCall::SetKernelArg { kernel, index, arg } => {
                let slots = &mut self.kernels[kernel.id].1;
                match slots.get_mut(*index as usize) {
                    Some(slot) => {
                        *slot = Some(*arg);
                        Status::success()
                    },
                    None => Status::new(INVALID_ARG_INDEX),
                }
            },
            DriverCall::EnqueueKernel { kernel, dims, global, .. } => {
                let len = global[0] * global[1] * global[2] * ADDEND.len();
                let (name, slots) = self.kernels[kernel.id].clone();
                if *dims != 3 {
                    return Status::new(INVALID_KERNEL_ARGS);
                }
                match (name.as_str(), slots.as_slice()) {
                    (
                        "add",
                        [Some(KernelArg::Scalar(Scalar::Int(addend))), Some(KernelArg::Mem(src)), Some(KernelArg::Mem(dst))],
                    ) => {
                        if self.images[src.id].len() != len || self.images[dst.id].len() != len {
                            return Status::new(INVALID_MEM_OBJECT);
                        }
                        for i in 0..len {
                            self.images[dst.id][i] = self.images[src.id][i] + addend;
                        }
                    },
                    (
                        "fill",
                        [Some(KernelArg::Scalar(Scalar::Int(pixel))), Some(KernelArg::Mem(img))],
                    ) => {
                        if self.images[img.id].len() != len {
                            return Status::new(INVALID_MEM_OBJECT);
                        }
                        for i in 0..len {
                            self.images[img.id][i] = *pixel;
                        }
                    },
                    _ => return Status::new(INVALID_KERNEL_ARGS),
                }
                self.dispatches += 1;
                Status::success()
            },
        }
    }
}

fn create_kernel(device: &mut Device, name: &str, dims: WorkDims) -> Kernel {
    let pending = Kernel::new(name, &ProgramRaw { id: 0 }, &CommandQueueRaw { id: 0 }, dims);
    let reply = device.create_kernel(&pending.name);
    pending.complete(reply).unwrap()
}

fn enqueue(device: &mut Device, kernel: &Kernel) {
    let call = kernel.enqueue(None, None).unwrap();
    let reply = device.perform(&call);
    call.interpret(reply).unwrap();
}

fn verify_vec(vec: &[i32], expected: i32) {
    for idx in 0..vec.len() {
        assert!(vec[idx] == expected, "vec[{}]: {}", idx, vec[idx]);
    }
}

#[test]
fn image_ops() {
    let mut device = Device::new();
    let proque_dims = WorkDims::Three(DIMS[0], DIMS[1], DIMS[2]);

    let mut vec = vec![0i32; proque_dims.to_len().unwrap() * ADDEND.len()];

    // Source and destination images and a vec to shuffle data:
    let img_src = device.create_image(&vec);
    let img_dst = device.create_image(&vec);

    let kernel_add = create_kernel(&mut device, "add", proque_dims);
    let pending = kernel_add.arg_scl(Scalar::Int(ADDEND[0]));
    let reply = device.perform(&pending.call());
    let kernel_add = pending.complete(reply).unwrap();
    let pending = kernel_add.arg_buf(Some(img_src));
    let reply = device.perform(&pending.call());
    let kernel_add = pending.complete(reply).unwrap();
    let pending = kernel_add.arg_buf(Some(img_dst));
    let reply = device.perform(&pending.call());
    let kernel_add = pending.complete(reply).unwrap();

    let kernel_fill_src = create_kernel(&mut device, "fill", proque_dims);
    let pending = kernel_fill_src.arg_scl_named("pixel", ScalarType::Int, None);
    let reply = device.perform(&pending.call());
    let kernel_fill_src = pending.complete(reply).unwrap();
    let pending = kernel_fill_src.arg_buf(Some(img_src));
    let reply = device.perform(&pending.call());
    let mut kernel_fill_src = pending.complete(reply).unwrap();

    // Make sure that the dims are correct:
    let dims = proque_dims.to_size().unwrap();
    assert_eq!(DIMS, dims);

    // Verify image and vector lengths:
    let len = proque_dims.to_len().unwrap();
    assert_eq!(device.images[img_src.id].len(), len * ADDEND.len());
    assert_eq!(device.images[img_dst.id].len(), len * ADDEND.len());

    let pixel_elements = ADDEND.len();
    assert_eq!(vec.len(), len * pixel_elements);

    // KERNEL RUN #1 -- make sure everything's working normally:
    enqueue(&mut device, &kernel_add);
    let mut ttl_runs = 1i32;

    // READ AND VERIFY #1 (LINEAR):
    device.read_image(img_dst, &mut vec);

    for idx in 0..proque_dims.to_len().unwrap() {
        assert!(vec[idx] == ADDEND[0] * ttl_runs, "vec[{}]: {}", idx, vec[idx]);
    }

    verify_vec(&vec, ADDEND[0] * ttl_runs);

    for _ in 0..TEST_ITERS {
        for _ in 0..2 {
            // Write to src:
            device.write_image(img_src, &vec);

            // Add from src to dst:
            enqueue(&mut device, &kernel_add);
            ttl_runs += 1;
            let cur_val = ADDEND[0] * ttl_runs;

            // Read into vec:
            device.read_image(img_dst, &mut vec);

            // Verify:
            verify_vec(&vec, cur_val);

            // Run kernel:
            ttl_runs += 1;
            let cur_val = ADDEND[0] * ttl_runs;
            let call = kernel_fill_src.set_arg_scl_named("pixel", Scalar::Int(cur_val)).unwrap();
            assert_eq!(
                call,
                DriverCall::SetKernelArg {
                    kernel: *kernel_fill_src.raw_as_ref(),
                    index: 0,
                    arg: KernelArg::Scalar(Scalar::Int(cur_val)),
                }
            );
            let reply = device.perform(&call);
            call.interpret(reply).unwrap();
            enqueue(&mut device, &kernel_fill_src);

            device.copy_image(img_src, img_dst);

            // Read into vec:
            device.read_image(img_dst, &mut vec);

            // Verify:
            verify_vec(&vec, cur_val);
        }
    }

    assert_eq!(ttl_runs, 1 + 4 * TEST_ITERS);
    assert_eq!(device.dispatches, ttl_runs as usize);
    assert_eq!(kernel_add.arg_count(), 3);
    assert_eq!(kernel_fill_src.arg_count(), 2);
    println!("{} total test runs complete.\n", ttl_runs);
}
