use wave_compute::checked::{Action, Pass, Step};
use wave_compute::dispatch::{BufferUsage, Dispatch, OutputBuffer};
use wave_compute::error::Error;
use wave_compute::layout::words_to_bytes;
use wave_compute::readback::{
    begin_surface_copy, row_stride, texture_plan, MapAnswer, ReadAction, Readback, TexturePlan,
    TextureUsage, BYTES_PER_TEXEL,
};
use wave_compute::sample::ONE_BITS;
use wave_compute::scene::ComputeScene;

fn output(width: u32, height: u32) -> OutputBuffer {
    let mut dispatch = Dispatch::new(ComputeScene::new(0, 0, 1, width, height).unwrap());
    while dispatch.action() != Action::Stop {
        dispatch = dispatch.advance(None);
    }
    dispatch.finish().unwrap().unwrap()
}

fn copied(width: u32, height: u32) -> Readback {
    let mut readback = Readback::new(output(width, height));
    while let ReadAction::Checked(_) = readback.action() {
        readback = readback.advance(None);
    }
    readback
}

#[test]
fn the_staging_buffer_is_as_large_as_the_output_and_can_be_mapped() {
    let out = output(512, 256);
    let size = out.size();
    let plan = Readback::new(out).staging_plan();
    assert_eq!(plan.size, size);
    assert_eq!(plan.size, 512 * 256 * 4);
    assert_eq!(
        plan.usage,
        BufferUsage {
            map_read: true,
            copy_src: false,
            copy_dst: true,
            uniform: false,
            storage: false,
        }
    );
}

#[test]
fn the_copy_issues_its_five_steps_before_the_buffer_is_mapped() {
    let mut readback = Readback::new(output(256, 256));
    let mut actions = Vec::new();
    while let ReadAction::Checked(action) = readback.action() {
        actions.push(action);
        readback = readback.advance(None);
    }
    let mut expected = Vec::new();
    for step in [
        Step::CreateCopyEncoder,
        Step::CreateStageBuffer,
        Step::CopyBuffer,
        Step::SubmitCopy,
        Step::WaitCopy,
    ] {
        assert_eq!(step.pass(), Pass::ToImage);
        expected.push(Action::OpenScope);
        expected.push(Action::Issue(step));
        expected.push(Action::CloseScope);
    }
    assert_eq!(actions, expected);
    assert_eq!(readback.action(), ReadAction::MapStage);
    assert!(readback.finish(&[]).is_none());
}

#[test]
fn a_mapped_buffer_is_copied_out_and_unmapped() {
    let readback = copied(256, 256).mapped(MapAnswer::Mapped);
    assert_eq!(readback.action(), ReadAction::CopyOutAndUnmap);
}

#[test]
fn the_bytes_of_a_mapped_buffer_decode_to_the_image_of_the_grid() {
    let bytes = words_to_bytes(&vec![ONE_BITS; 256 * 256]);
    let image = copied(256, 256).mapped(MapAnswer::Mapped).finish(&bytes).unwrap().unwrap();
    assert_eq!((image.width(), image.height()), (256, 256));
    assert_eq!(image.samples(), &vec![255u8; 256 * 256]);
}

#[test]
fn too_few_bytes_from_a_mapped_buffer_make_no_image() {
    let bytes = words_to_bytes(&vec![ONE_BITS; 256 * 256 - 1]);
    let outcome = copied(256, 256).mapped(MapAnswer::Mapped).finish(&bytes).unwrap();
    assert_eq!(outcome.unwrap_err(), Error::ImageTooSmall);
}

#[test]
fn a_buffer_that_the_device_declines_to_map_fails_the_read_back() {
    let readback = copied(256, 256).mapped(MapAnswer::Declined("device lost".to_string()));
    assert_eq!(readback.action(), ReadAction::Stop);
    assert_eq!(
        readback.finish(&[]).unwrap().unwrap_err(),
        Error::MapError { message: "device lost".to_string() }
    );
}

#[test]
fn a_dropped_channel_aborts_the_read_back() {
    let readback = copied(256, 256).mapped(MapAnswer::Dropped);
    assert_eq!(readback.action(), ReadAction::Stop);
    assert_eq!(readback.finish(&[]).unwrap().unwrap_err(), Error::ReadbackAborted);
}

#[test]
fn an_answer_that_is_not_awaited_changes_nothing() {
    let readback = Readback::new(output(256, 256)).mapped(MapAnswer::Mapped);
    assert_eq!(readback.action(), ReadAction::Checked(Action::OpenScope));
    let readback = copied(256, 256).advance(Some("late".to_string()));
    assert_eq!(readback.action(), ReadAction::MapStage);
    let readback = copied(256, 256).mapped(MapAnswer::Mapped).mapped(MapAnswer::Dropped);
    assert_eq!(readback.action(), ReadAction::CopyOutAndUnmap);
}

#[test]
fn a_capture_during_the_copy_fails_the_read_back_before_any_mapping() {
    let mut readback = Readback::new(output(256, 256));
    for _ in 0..8 {
        readback = readback.advance(None);
    }
    assert_eq!(readback.action(), ReadAction::Checked(Action::CloseScope));
    readback = readback.advance(Some("sizes differ".to_string()));
    assert_eq!(readback.action(), ReadAction::Stop);
    readback = readback.mapped(MapAnswer::Mapped);
    assert_eq!(
        readback.finish(&[]).unwrap().unwrap_err(),
        Error::DeviceValidationError {
            context: "copy buffer".to_string(),
            message: "sizes differ".to_string(),
        }
    );
}

#[test]
fn a_lost_device_fails_a_read_back_in_any_state() {
    let bytes = words_to_bytes(&vec![ONE_BITS; 256 * 256]);
    let lost = Readback::new(output(256, 256)).device_lost();
    assert_eq!(lost.finish(&bytes).unwrap().unwrap_err(), Error::DeviceLost);
    let lost = copied(256, 256).device_lost();
    assert_eq!(lost.finish(&bytes).unwrap().unwrap_err(), Error::DeviceLost);
    let lost = copied(256, 256).mapped(MapAnswer::Mapped).device_lost();
    assert_eq!(lost.finish(&bytes).unwrap().unwrap_err(), Error::DeviceLost);
    let failed = copied(256, 256).mapped(MapAnswer::Dropped).device_lost();
    assert_eq!(failed.finish(&bytes).unwrap().unwrap_err(), Error::ReadbackAborted);
}

#[test]
fn rows_are_padded_up_to_the_alignment() {
    assert_eq!(BYTES_PER_TEXEL, 4);
    assert_eq!(row_stride(1024, 256), Some(4096));
    assert_eq!(row_stride(64, 256), Some(256));
    assert_eq!(row_stride(65, 256), Some(512));
    assert_eq!(row_stride(1, 256), Some(256));
    assert_eq!(row_stride(0, 256), Some(0));
    assert_eq!(row_stride(100, 1), Some(400));
    assert_eq!(row_stride(100, 3), Some(402));
    assert_eq!(row_stride(100, 512), Some(512));
}

#[test]
fn without_an_alignment_there_is_no_stride_and_no_texture() {
    assert_eq!(row_stride(1024, 0), None);
    assert_eq!(row_stride(0, 0), None);
    assert_eq!(texture_plan(&output(256, 256), 0), None);
}

#[test]
fn a_stride_that_does_not_fit_in_32_bits_is_none() {
    assert_eq!(row_stride(0x3fff_ffff, 4), Some(0xffff_fffc));
    assert_eq!(row_stride(0x4000_0000, 4), None);
    assert_eq!(row_stride(0x3fff_ffff, 256), None);
    assert_eq!(row_stride(u32::MAX, u32::MAX), None);
    assert_eq!(row_stride(1, u32::MAX), Some(u32::MAX));
}

#[test]
fn rows_of_whole_tiles_need_no_padding_at_the_alignment_of_the_device_library() {
    let alignment = wgpu::COPY_BYTES_PER_ROW_ALIGNMENT;
    assert_eq!(alignment, 256);
    for width in [0u32, 256, 512, 1024, 4096] {
        assert_eq!(row_stride(width, alignment), Some(4 * width));
    }
}

#[test]
fn a_texture_is_planned_for_the_grid_of_the_output() {
    let plan = texture_plan(&output(1024, 512), 256);
    assert_eq!(
        plan,
        Some(TexturePlan {
            width: 1024,
            height: 512,
            usage: TextureUsage { copy_src: true, copy_dst: true },
            bytes_per_row: 4096,
            rows_per_image: 512,
        })
    );
}

#[test]
fn no_texture_is_planned_where_the_rows_would_need_padding() {
    assert_eq!(texture_plan(&output(256, 256), 4096), None);
    assert!(texture_plan(&output(256, 256), 1024).is_some());
    assert!(texture_plan(&output(256, 256), 3).is_none());
}

#[test]
fn the_copy_to_a_texture_starts_with_the_texture() {
    let progress = begin_surface_copy();
    assert_eq!(progress.action(), Action::OpenScope);
    assert_eq!(progress.advance(None).action(), Action::Issue(Step::CreateTexture));
}
