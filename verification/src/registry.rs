//! The kernel registry: an explicit table, built once at startup from the
//! kernel compiler's output, mapping each stage entry point to the handle
//! of the compiled module that provides it. It is passed by reference to
//! every component that must resolve a kernel — in place of a lazily
//! initialised global table with hidden initialisation order.

use vstd::prelude::*;

verus! {

/// A kernel entry point of the pipeline.
#[derive(Clone, Copy, Debug, PartialEq, Eq, Structural)]
pub enum StageKernel {
    /// The dense camera-ray generation compute kernel.
    GenerateCameraRays,
    /// The ray-generation program of the intersection dispatch.
    IntersectClosest,
    /// The material-evaluation (state update) compute kernel.
    UpdateState,
    /// The film-update compute kernel.
    PutFilm,
    /// The closest-hit program.
    ClosestHit,
    /// The miss program.
    Miss,
}

/// One registry entry: an entry point and the handle of the compiled
/// module providing it.
#[derive(Clone, Copy, Debug, PartialEq, Eq, Structural)]
pub struct KernelEntry {
    pub kernel: StageKernel,
    pub module: u32,
}

/// The module handle of the first entry for `kernel`, if any.
pub open spec fn first_match(entries: Seq<KernelEntry>, kernel: StageKernel) -> Option<u32>
    decreases entries.len(),
{
    if entries.len() == 0 {
        None
    } else if entries[0].kernel == kernel {
        Some(entries[0].module)
    } else {
        first_match(entries.drop_first(), kernel)
    }
}

/// The registry: a finite table of entry-point-to-module bindings.
pub struct KernelRegistry {
    pub entries: Vec<KernelEntry>,
}

impl KernelRegistry {
    /// What `lookup` resolves `kernel` to.
    pub open spec fn spec_lookup(self, kernel: StageKernel) -> Option<u32> {
        first_match(self.entries@, kernel)
    }

    /// An empty registry: every lookup fails.
    pub fn new() -> (r: KernelRegistry)
        ensures
            r.entries@.len() == 0,
            forall|k: StageKernel| #[trigger] r.spec_lookup(k) is None,
    {
        KernelRegistry { entries: Vec::new() }
    }

    /// Appends a binding of `kernel` to `module`. An earlier binding of the
    /// same entry point keeps precedence.
    pub fn register(&mut self, kernel: StageKernel, module: u32)
        ensures
            final(self).entries@ == old(self).entries@.push(
                KernelEntry { kernel, module },
            ),
    {
        self.entries.push(KernelEntry { kernel, module });
    }

    /// Resolves `kernel` to the module of its first binding, or `None` when
    /// the registry holds none.
    pub fn lookup(&self, kernel: StageKernel) -> (r: Option<u32>)
        ensures
            r == self.spec_lookup(kernel),
    {
        let n = self.entries.len();
        let mut i: usize = 0;
        proof {
            assert(self.entries@.skip(0) =~= self.entries@);
        }
        while i < n
            invariant
                n == self.entries@.len(),
                i <= n,
                first_match(self.entries@, kernel) == first_match(
                    self.entries@.skip(i as int),
                    kernel,
                ),
            decreases n - i,
        {
            let entry = self.entries[i];
            proof {
                assert(self.entries@.skip(i as int)[0] == self.entries@[i as int]);
                assert(self.entries@.skip(i as int).drop_first() =~= self.entries@.skip(
                    i as int + 1,
                ));
            }
            if entry.kernel == kernel {
                return Some(entry.module);
            }
            i = i + 1;
        }
        proof {
            assert(self.entries@.skip(n as int).len() == 0);
        }
        None
    }
}

/// How a pass accesses a bound resource: read-only or write-only. The
/// scheduler declares one of the two per binding; the execution-graph
/// engine inserts whatever barriers make a write visible to the next
/// stage's read.
#[derive(Clone, Copy, Debug, PartialEq, Eq, Structural)]
pub enum Access {
    Read,
    Write,
}

/// The resource a stage kernel expects at one of its binding slots.
#[derive(Clone, Copy, Debug, PartialEq, Eq, Structural)]
pub enum BoundResource {
    /// The per-frame camera table.
    Cameras,
    /// The ray queue.
    Rays,
    /// The per-pixel sample-position array.
    SamplePositions,
    /// The scene's spatial index.
    Accel,
    /// The surface-interaction / material-evaluation data.
    Interactions,
    /// The per-frame instance table.
    Instances,
    /// The per-pixel radiance array.
    Radiance,
    /// The output image.
    OutputImage,
}

/// One declared binding: descriptor set, binding index, access intent and
/// the resource expected there.
#[derive(Clone, Copy, Debug, PartialEq, Eq, Structural)]
pub struct BindingSlot {
    pub set: u32,
    pub binding: u32,
    pub access: Access,
    pub resource: BoundResource,
}

/// The binding set each stage kernel declares, in declaration order. This
/// is the ABI between the scheduler and the compiled kernels: a pass must
/// bind exactly this set, in this order, at these indices.
pub open spec fn spec_binding_layout(kernel: StageKernel) -> Seq<BindingSlot> {
    match kernel {
        StageKernel::GenerateCameraRays => seq![
            BindingSlot { set: 0, binding: 0, access: Access::Read, resource: BoundResource::Cameras },
            BindingSlot { set: 0, binding: 1, access: Access::Write, resource: BoundResource::Rays },
            BindingSlot {
                set: 0,
                binding: 2,
                access: Access::Write,
                resource: BoundResource::SamplePositions,
            },
        ],
        StageKernel::IntersectClosest => seq![
            BindingSlot { set: 0, binding: 0, access: Access::Read, resource: BoundResource::Accel },
            BindingSlot { set: 0, binding: 1, access: Access::Read, resource: BoundResource::Rays },
            BindingSlot {
                set: 0,
                binding: 2,
                access: Access::Write,
                resource: BoundResource::Interactions,
            },
            BindingSlot { set: 0, binding: 3, access: Access::Read, resource: BoundResource::Instances },
        ],
        StageKernel::UpdateState => seq![
            BindingSlot { set: 0, binding: 0, access: Access::Write, resource: BoundResource::Radiance },
            BindingSlot {
                set: 0,
                binding: 1,
                access: Access::Read,
                resource: BoundResource::Interactions,
            },
        ],
        StageKernel::PutFilm => seq![
            BindingSlot { set: 0, binding: 0, access: Access::Read, resource: BoundResource::Radiance },
            BindingSlot {
                set: 0,
                binding: 1,
                access: Access::Read,
                resource: BoundResource::SamplePositions,
            },
            BindingSlot { set: 0, binding: 2, access: Access::Write, resource: BoundResource::OutputImage },
        ],
        StageKernel::ClosestHit => Seq::empty(),
        StageKernel::Miss => Seq::empty(),
    }
}

/// Returns the binding set `kernel` declares, in declaration order, with
/// binding indices numbered consecutively from zero within the set.
pub fn binding_layout(kernel: StageKernel) -> (r: Vec<BindingSlot>)
    ensures
        r@ == spec_binding_layout(kernel),
        forall|i: int| 0 <= i < r@.len() ==> (#[trigger] r@[i]).binding == i,
{
    let mut r: Vec<BindingSlot> = Vec::new();
    match kernel {
        StageKernel::GenerateCameraRays => {
            r.push(BindingSlot {
                set: 0,
                binding: 0,
                access: Access::Read,
                resource: BoundResource::Cameras,
            });
            r.push(BindingSlot {
                set: 0,
                binding: 1,
                access: Access::Write,
                resource: BoundResource::Rays,
            });
            r.push(BindingSlot {
                set: 0,
                binding: 2,
                access: Access::Write,
                resource: BoundResource::SamplePositions,
            });
        },
        StageKernel::IntersectClosest => {
            r.push(BindingSlot {
                set: 0,
                binding: 0,
                access: Access::Read,
                resource: BoundResource::Accel,
            });
            r.push(BindingSlot {
                set: 0,
                binding: 1,
                access: Access::Read,
                resource: BoundResource::Rays,
            });
            r.push(BindingSlot {
                set: 0,
                binding: 2,
                access: Access::Write,
                resource: BoundResource::Interactions,
            });
            r.push(BindingSlot {
                set: 0,
                binding: 3,
                access: Access::Read,
                resource: BoundResource::Instances,
            });
        },
        StageKernel::UpdateState => {
            r.push(BindingSlot {
                set: 0,
                binding: 0,
                access: Access::Write,
                resource: BoundResource::Radiance,
            });
            r.push(BindingSlot {
                set: 0,
                binding: 1,
                access: Access::Read,
                resource: BoundResource::Interactions,
            });
        },
        StageKernel::PutFilm => {
            r.push(BindingSlot {
                set: 0,
                binding: 0,
                access: Access::Read,
                resource: BoundResource::Radiance,
            });
            r.push(BindingSlot {
                set: 0,
                binding: 1,
                access: Access::Read,
                resource: BoundResource::SamplePositions,
            });
            r.push(BindingSlot {
                set: 0,
                binding: 2,
                access: Access::Write,
                resource: BoundResource::OutputImage,
            });
        },
        StageKernel::ClosestHit => {},
        StageKernel::Miss => {},
    }
    proof {
        assert(r@ =~= spec_binding_layout(kernel));
    }
    r
}

} // verus!
