use wave_compute::checked::{Action, Pass, Step};
use wave_compute::dispatch::{BufferUsage, Dispatch, OutputBuffer};
use wave_compute::error::Error;
use wave_compute::gray::GrayGrid;
use wave_compute::layout::words_to_bytes;
use wave_compute::readback::{MapAnswer, ReadAction, Readback};
use wave_compute::scene::ComputeScene;

/// Drives a dispatch as a device that captures nothing would.
fn complete(mut dispatch: Dispatch) -> (Vec<Step>, Dispatch) {
    let mut issued = Vec::new();
    loop {
        match dispatch.action() {
            Action::Stop => return (issued, dispatch),
            Action::Issue(step) => issued.push(step),
            _ => {}
        }
        dispatch = dispatch.advance(None);
    }
}

fn output_of(scene: ComputeScene) -> OutputBuffer {
    complete(Dispatch::new(scene)).1.finish().unwrap().unwrap()
}

/// Drives a read-back as a device that captures nothing and maps the
/// buffer would, and hands in `bytes` as what was mapped.
fn read_back(output: OutputBuffer, bytes: &[u8]) -> Result<GrayGrid, Error> {
    let mut readback = Readback::new(output);
    loop {
        match readback.action() {
            ReadAction::Checked(_) => readback = readback.advance(None),
            ReadAction::MapStage => readback = readback.mapped(MapAnswer::Mapped),
            ReadAction::CopyOutAndUnmap | ReadAction::Stop => {
                return readback.finish(bytes).unwrap()
            }
        }
    }
}

#[test]
fn a_dispatch_keeps_its_scene() {
    let scene = ComputeScene::new(1, 2, 3, 512, 256).unwrap();
    let dispatch = Dispatch::new(scene);
    assert_eq!(dispatch.scene(), scene);
    assert_eq!(dispatch.uniform_contents(), scene.to_bytes());
    assert_eq!(dispatch.advance(None).device_lost().scene(), scene);
}

#[test]
fn the_uniform_buffer_holds_the_block_and_nothing_else() {
    let plan = Dispatch::new(ComputeScene::standard()).uniform_plan();
    assert_eq!(plan.size, 20);
    assert_eq!(
        plan.usage,
        BufferUsage {
            map_read: false,
            copy_src: false,
            copy_dst: false,
            uniform: true,
            storage: false,
        }
    );
}

#[test]
fn the_output_buffer_has_four_bytes_for_each_cell_and_can_be_written_and_copied() {
    for (width, height) in [(256u32, 256u32), (1024, 1024), (512, 768), (2560, 256)] {
        let dispatch = Dispatch::new(ComputeScene::new(0, 0, 1, width, height).unwrap());
        let plan = dispatch.output_plan();
        assert_eq!(plan.size, width as u64 * height as u64 * 4);
        assert_eq!(
            plan.usage,
            BufferUsage {
                map_read: false,
                copy_src: true,
                copy_dst: false,
                uniform: false,
                storage: true,
            }
        );
    }
}

#[test]
fn one_workgroup_is_dispatched_for_each_tile_of_each_row() {
    assert_eq!(Dispatch::new(ComputeScene::standard()).workgroups(), (4, 1024, 1));
    let scene = ComputeScene::new(0, 0, 1, 256, 512).unwrap();
    assert_eq!(Dispatch::new(scene).workgroups(), (1, 512, 1));
    let scene = ComputeScene::new(0, 0, 1, 0, 0).unwrap();
    assert_eq!(Dispatch::new(scene).workgroups(), (0, 0, 1));
}

#[test]
fn a_dispatch_issues_its_ten_steps_and_no_others() {
    let (issued, dispatch) = complete(Dispatch::new(ComputeScene::standard()));
    assert_eq!(
        issued,
        vec![
            Step::CreateShader,
            Step::CreatePipeline,
            Step::GetBindGroupLayout,
            Step::CreateSceneBuffer,
            Step::CreateOutputBuffer,
            Step::CreateBindGroup,
            Step::CreateComputeEncoder,
            Step::RecordComputePass,
            Step::SubmitCompute,
            Step::WaitCompute,
        ]
    );
    assert!(issued.iter().all(|step| step.pass() == Pass::Dispatch));
    assert!(dispatch.finish().unwrap().is_ok());
}

#[test]
fn a_dispatch_under_way_has_no_outcome() {
    let mut dispatch = Dispatch::new(ComputeScene::standard());
    for _ in 0..29 {
        dispatch = dispatch.advance(None);
    }
    assert_eq!(dispatch.action(), Action::CloseScope);
    assert!(dispatch.finish().is_none());
    assert!(Dispatch::new(ComputeScene::standard()).finish().is_none());
}

#[test]
fn the_output_of_a_finished_dispatch_is_that_of_its_grid() {
    let output = output_of(ComputeScene::new(0, 0, 1, 512, 256).unwrap());
    assert_eq!((output.width(), output.height(), output.size()), (512, 256, 512 * 256 * 4));
}

#[test]
fn a_failed_step_ends_the_dispatch_without_an_output() {
    let mut dispatch = Dispatch::new(ComputeScene::standard());
    for _ in 0..17 {
        dispatch = dispatch.advance(None);
    }
    assert_eq!(dispatch.action(), Action::CloseScope);
    dispatch = dispatch.advance(Some("binding 1: buffer too small".to_string()));
    assert_eq!(dispatch.action(), Action::Stop);
    assert_eq!(
        dispatch.finish().unwrap().unwrap_err(),
        Error::DeviceValidationError {
            context: "create bind group".to_string(),
            message: "binding 1: buffer too small".to_string(),
        }
    );
}

#[test]
fn a_shader_that_does_not_compile_ends_the_dispatch_at_once() {
    let dispatch = Dispatch::new(ComputeScene::standard())
        .advance(None)
        .advance(None)
        .advance(Some("expected ';'".to_string()));
    assert_eq!(dispatch.action(), Action::Stop);
    assert_eq!(
        dispatch.finish().unwrap().unwrap_err(),
        Error::ShaderCompileError { message: "expected ';'".to_string() }
    );
}

#[test]
fn a_device_lost_in_the_middle_of_a_dispatch_leaves_an_error_and_no_output() {
    for done in 0..30 {
        let mut dispatch = Dispatch::new(ComputeScene::standard());
        for _ in 0..done {
            dispatch = dispatch.advance(None);
        }
        dispatch = dispatch.device_lost();
        assert_eq!(dispatch.action(), Action::Stop);
        // Nothing that the driver hands in afterwards brings an output.
        dispatch = dispatch.advance(None).advance(None);
        assert_eq!(dispatch.finish().unwrap().unwrap_err(), Error::DeviceLost);
    }
}

#[test]
fn a_device_lost_after_the_dispatch_does_not_undo_it() {
    let (_, dispatch) = complete(Dispatch::new(ComputeScene::standard()));
    assert!(dispatch.device_lost().finish().unwrap().is_ok());
}

#[test]
fn the_standard_run_gives_an_image_of_1024_by_1024_samples() {
    let scene = ComputeScene::standard();
    assert_eq!(f32::from_bits(scene.freq()), 43000.0);
    assert_eq!(f32::from_bits(scene.time()), 0.0);
    assert_eq!(scene.count(), 8);
    let output = output_of(scene);
    assert_eq!(output.size(), 4 * 1024 * 1024);
    // What a kernel might leave: a value in [0, 1] for each cell.
    let cells: Vec<u32> =
        (0..1024 * 1024u32).map(|i| ((i % 1024) as f32 / 1023.0).to_bits()).collect();
    let bytes = words_to_bytes(&cells);
    assert_eq!(bytes.len() as u64, output.size());
    let image = read_back(output, &bytes).unwrap();
    assert_eq!((image.width(), image.height()), (1024, 1024));
    assert_eq!(image.samples().len(), 1024 * 1024);
    assert_eq!(image.sample_at(0, 0), Some(0));
    assert_eq!(image.sample_at(1023, 0), Some(255));
    assert_eq!(image.sample_at(1023, 1023), Some(255));
    assert_eq!(image.sample_at(512, 7), Some((255.0 * (512.0f32 / 1023.0)) as u8));
    assert_eq!(image.sample_at(1024, 0), None);
}
