use vstd::prelude::*;

use crate::swapchain::StartupError;

verus! {

/// What a queue family of a physical adapter reports about itself: whether it
/// supports graphics operations and whether it can present to the surface.
#[derive(Clone, Copy, Debug, PartialEq, Eq)]
pub struct QueueFamilyDesc {
    pub supports_graphics: bool,
    pub supports_present: bool,
}

/// One enumerated physical adapter, described by its queue families.
#[derive(Debug, PartialEq, Eq)]
pub struct AdapterDesc {
    pub queue_families: Vec<QueueFamilyDesc>,
}

/// The adapter and queue family picked at startup.
#[derive(Clone, Copy, Debug, PartialEq, Eq)]
pub struct AdapterChoice {
    pub adapter_index: usize,
    pub queue_family_index: usize,
}

/// The single-subpass render pass layout: one colour attachment that is
/// cleared on load and kept on store, at one sample per pixel, in the format
/// the swapchain was given.
#[derive(Clone, Copy, Debug, PartialEq, Eq)]
pub struct RenderPassDesc {
    pub color_attachment_count: usize,
    pub load_clear: bool,
    pub store_keep: bool,
    pub samples: u32,
    pub format: u32,
}

/// Primitive topologies the pipeline model distinguishes.
#[derive(Clone, Copy, Debug, PartialEq, Eq)]
pub enum Topology {
    PointList,
    LineList,
    TriangleList,
}

/// The compiled graphics pipeline, reduced to what the frame logic reads: the
/// render pass it is bound to, its topology, its single vertex buffer binding,
/// its two shader stages, and its one dynamic viewport.
#[derive(Clone, Copy, Debug, PartialEq, Eq)]
pub struct PipelineDesc {
    pub render_pass: RenderPassDesc,
    pub topology: Topology,
    pub vertex_buffer_bindings: usize,
    pub has_vertex_stage: bool,
    pub has_fragment_stage: bool,
    pub dynamic_viewport_count: usize,
}

/// The static GPU resources owned for the manager's whole lifetime: the chosen
/// adapter and queue family, the queue priority (in thousandths), the surface
/// format, the render pass, the pipeline, and the size of the fixed vertex
/// buffer. Immutable after construction.
#[derive(Clone, Copy, Debug, PartialEq, Eq)]
pub struct DeviceContextDesc {
    pub adapter_index: usize,
    pub queue_family_index: usize,
    pub queue_priority_milli: u32,
    pub surface_format: u32,
    pub render_pass: RenderPassDesc,
    pub pipeline: PipelineDesc,
    pub vertex_count: usize,
}

/// The render pass built for a given surface format.
pub open spec fn render_pass_for(format: u32) -> RenderPassDesc {
    RenderPassDesc {
        color_attachment_count: 1,
        load_clear: true,
        store_keep: true,
        samples: 1,
        format,
    }
}

/// The pipeline built against a given render pass: triangle list, one vertex
/// buffer binding, vertex and fragment stages, one dynamic viewport.
pub open spec fn pipeline_for(render_pass: RenderPassDesc) -> PipelineDesc {
    PipelineDesc {
        render_pass,
        topology: Topology::TriangleList,
        vertex_buffer_bindings: 1,
        has_vertex_stage: true,
        has_fragment_stage: true,
        dynamic_viewport_count: 1,
    }
}

/// The device context assembled at startup for a chosen adapter and surface
/// format: a single queue at priority one half, and the static render pass,
/// pipeline, and three-vertex buffer.
pub open spec fn device_context_for(choice: AdapterChoice, format: u32) -> DeviceContextDesc {
    DeviceContextDesc {
        adapter_index: choice.adapter_index,
        queue_family_index: choice.queue_family_index,
        queue_priority_milli: 500,
        surface_format: format,
        render_pass: render_pass_for(format),
        pipeline: pipeline_for(render_pass_for(format)),
        vertex_count: 3,
    }
}

/// The static facts that hold of every device context startup builds.
pub open spec fn device_wf(d: DeviceContextDesc) -> bool {
    &&& d.render_pass == render_pass_for(d.surface_format)
    &&& d.pipeline == pipeline_for(d.render_pass)
    &&& d.queue_priority_milli == 500
    &&& d.vertex_count == 3
}

/// Assemble the device context for the chosen adapter and surface format.
pub fn build_device_context(choice: AdapterChoice, format: u32) -> (d: DeviceContextDesc)
    ensures
        d == device_context_for(choice, format),
        device_wf(d),
{
    let render_pass = RenderPassDesc {
        color_attachment_count: 1,
        load_clear: true,
        store_keep: true,
        samples: 1,
        format,
    };
    let pipeline = PipelineDesc {
        render_pass,
        topology: Topology::TriangleList,
        vertex_buffer_bindings: 1,
        has_vertex_stage: true,
        has_fragment_stage: true,
        dynamic_viewport_count: 1,
    };
    DeviceContextDesc {
        adapter_index: choice.adapter_index,
        queue_family_index: choice.queue_family_index,
        queue_priority_milli: 500,
        surface_format: format,
        render_pass,
        pipeline,
        vertex_count: 3,
    }
}

/// A queue family is usable only if it can both draw and present.
pub open spec fn family_suitable(f: QueueFamilyDesc) -> bool {
    f.supports_graphics && f.supports_present
}

/// `i` is the first suitable queue family of the sequence.
pub open spec fn first_suitable_family(fams: Seq<QueueFamilyDesc>, i: int) -> bool {
    &&& 0 <= i < fams.len()
    &&& family_suitable(fams[i])
    &&& forall|j: int| 0 <= j < i ==> !family_suitable(#[trigger] fams[j])
}

/// An adapter qualifies if at least one of its queue families is suitable.
pub open spec fn adapter_has_suitable(a: AdapterDesc) -> bool {
    exists|i: int| 0 <= i < a.queue_families@.len() && family_suitable(
        #[trigger] a.queue_families@[i],
    )
}

/// `i` is the first qualifying adapter of the sequence.
pub open spec fn first_suitable_adapter(adapters: Seq<AdapterDesc>, i: int) -> bool {
    &&& 0 <= i < adapters.len()
    &&& adapter_has_suitable(adapters[i])
    &&& forall|j: int| 0 <= j < i ==> !adapter_has_suitable(#[trigger] adapters[j])
}

/// First queue family that supports both graphics and presentation, or `None`
/// when the adapter offers no such family.
pub fn select_queue_family(families: &Vec<QueueFamilyDesc>) -> (r: Option<usize>)
    ensures
        match r {
            Some(i) => first_suitable_family(families@, i as int),
            None => forall|j: int| 0 <= j < families@.len() ==> !family_suitable(
                #[trigger] families@[j],
            ),
        },
{
    let mut i: usize = 0;
    while i < families.len()
        invariant
            i <= families.len(),
            forall|j: int| 0 <= j < i ==> !family_suitable(#[trigger] families@[j]),
        decreases families.len() - i,
    {
        let f = families[i];
        if f.supports_graphics && f.supports_present {
            return Some(i);
        }
        i = i + 1;
    }
    None
}

/// First-match selection policy for the physical adapter: the first adapter
/// reporting a queue family that supports both graphics and presentation, and
/// within it the first such family. This deliberately does not rank adapters.
pub fn select_adapter(adapters: &Vec<AdapterDesc>) -> (r: Result<AdapterChoice, StartupError>)
    ensures
        match r {
            Ok(c) => {
                &&& first_suitable_adapter(adapters@, c.adapter_index as int)
                &&& first_suitable_family(
                    adapters@[c.adapter_index as int].queue_families@,
                    c.queue_family_index as int,
                )
            },
            Err(e) => {
                &&& e == StartupError::NoSuitableAdapter
                &&& forall|j: int| 0 <= j < adapters@.len() ==> !adapter_has_suitable(
                    #[trigger] adapters@[j],
                )
            },
        },
{
    let mut i: usize = 0;
    while i < adapters.len()
        invariant
            i <= adapters.len(),
            forall|j: int| 0 <= j < i ==> !adapter_has_suitable(#[trigger] adapters@[j]),
        decreases adapters.len() - i,
    {
        match select_queue_family(&adapters[i].queue_families) {
            Some(q) => {
                return Ok(AdapterChoice { adapter_index: i, queue_family_index: q });
            },
            None => {
                proof {
                    assert(!adapter_has_suitable(adapters@[i as int]));
                }
            },
        }
        i = i + 1;
    }
    Err(StartupError::NoSuitableAdapter)
}

} // verus!
