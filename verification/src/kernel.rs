//! The compute kernel: its text and what its text declares.
//!
//! The constants here are what the text says. The pipeline is built from
//! them, so a change of the text has to change them too.

use vstd::prelude::*;

verus! {

/// Label of the shader module.
pub const LABEL: &'static str = "compute.wgsl";

/// Invocations in one workgroup of the kernel, along x, y and z.
pub const LOCAL_SIZE: (u32, u32, u32) = (256, 1, 1);

/// Index of the bind group that the kernel declares.
pub const BIND_GROUP: u32 = 0;

/// Binding of the uniform block in the bind group.
pub const SCENE_BINDING: u32 = 0;

/// Binding of the output buffer in the bind group.
pub const OUTPUT_BINDING: u32 = 1;

/// The name of the kernel's entry point.
pub const ENTRY_POINT: &'static str = "step";

/// The text of the shader module.
///
/// One invocation fills one cell. The cell gets the mean, over `count`
/// sources spread along the top edge of the grid, of a wave that leaves
/// each source at time zero with frequency `freq`, brought into the range
/// from 0 to 1.
pub const SOURCE: &'static str = r#"
struct Scene {
    time: f32,
    freq: f32,
    count: u32,
    width: u32,
    height: u32,
}

@group(0) @binding(0)
var<uniform> scene: Scene;

@group(0) @binding(1)
var<storage, read_write> output: array<f32>;

@compute @workgroup_size(256, 1, 1)
fn step(@builtin(global_invocation_id) id: vec3<u32>) {
    if (id.x >= scene.width || id.y >= scene.height) {
        return;
    }
    let speed = 343.0;
    let tau = 6.2831853;
    let at = vec2<f32>(f32(id.x) / f32(scene.width), f32(id.y) / f32(scene.height));
    var sum: f32 = 0.0;
    for (var i: u32 = 0u; i < scene.count; i = i + 1u) {
        let source = vec2<f32>((f32(i) + 0.5) / f32(scene.count), 0.0);
        let phase = tau * scene.freq * (distance(at, source) / speed - scene.time);
        sum = sum + sin(phase);
    }
    var mean: f32 = 0.0;
    if (scene.count > 0u) {
        mean = sum / f32(scene.count);
    }
    output[id.y * scene.width + id.x] = clamp(0.5 + 0.5 * mean, 0.0, 1.0);
}
"#;

} // verus!
