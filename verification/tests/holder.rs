use image::{DynamicImage, GrayImage, RgbImage, RgbaImage};
use plygui_image::{
    Constraint, Image, ImageHolder, Layout, NewImage, Placement, Rect, RenderCommand, RenderState,
    ScalePolicy, Size, SourceImage, Visibility,
};

fn bitmap(width: u32, height: u32) -> SourceImage {
    let bytes = vec![0x7fu8; 4 * width as usize * height as usize];
    SourceImage::new(width, height, bytes).unwrap()
}

fn wrap() -> Layout {
    Layout { width: Constraint::WrapContent, height: Constraint::WrapContent }
}

#[test]
fn source_image_keeps_extent_and_bytes() {
    let bytes: Vec<u8> = (0u8..24).collect();
    let image = SourceImage::new(3, 2, bytes.clone()).unwrap();
    assert_eq!(image.width(), 3);
    assert_eq!(image.height(), 2);
    assert_eq!(image.size(), Size::new(3, 2));
    assert_eq!(image.pixels(), &bytes);
}

#[test]
fn source_image_needs_four_bytes_for_each_pixel() {
    assert!(SourceImage::new(3, 2, vec![0u8; 23]).is_none());
    assert!(SourceImage::new(1, 1, Vec::new()).is_none());
    assert!(SourceImage::new(u32::MAX, u32::MAX, vec![0u8; 16]).is_none());
    assert!(SourceImage::new(3, 2, vec![0u8; 24]).is_some());
}

#[test]
fn source_image_drops_bytes_behind_the_last_pixel() {
    let image = SourceImage::new(1, 2, vec![1, 2, 3, 4, 5, 6, 7, 8, 9, 10]).unwrap();
    assert_eq!(image.pixels(), &vec![1, 2, 3, 4, 5, 6, 7, 8]);
}

#[test]
fn source_image_without_pixels_is_allowed() {
    let image = SourceImage::new(0, 5, Vec::new()).unwrap();
    assert_eq!(image.size(), Size::new(0, 5));
    assert!(image.pixels().is_empty());
    let other = SourceImage::new(0, 0, vec![9, 9]).unwrap();
    assert!(other.pixels().is_empty());
}

#[test]
fn from_dynamic_converts_rgb_to_rgba() {
    let rgb = RgbImage::from_raw(2, 1, vec![10, 20, 30, 40, 50, 60]).unwrap();
    let image = SourceImage::from_dynamic(&DynamicImage::ImageRgb8(rgb));
    assert_eq!(image.size(), Size::new(2, 1));
    assert_eq!(image.pixels(), &vec![10, 20, 30, 255, 40, 50, 60, 255]);
}

#[test]
fn from_dynamic_converts_gray_to_rgba() {
    let gray = GrayImage::from_raw(1, 2, vec![7, 200]).unwrap();
    let image = SourceImage::from_dynamic(&DynamicImage::ImageLuma8(gray));
    assert_eq!(image.size(), Size::new(1, 2));
    assert_eq!(image.pixels(), &vec![7, 7, 7, 255, 200, 200, 200, 255]);
}

#[test]
fn from_dynamic_keeps_only_the_pixels_of_a_long_buffer() {
    let rgba = RgbaImage::from_raw(1, 1, vec![1, 2, 3, 4, 5, 6, 7, 8]).unwrap();
    let image = SourceImage::from_dynamic(&DynamicImage::ImageRgba8(rgba));
    assert_eq!(image.size(), Size::new(1, 1));
    assert_eq!(image.pixels(), &vec![1, 2, 3, 4]);
}

#[test]
fn from_dynamic_of_an_empty_picture() {
    let image = SourceImage::from_dynamic(&DynamicImage::new_rgb8(0, 0));
    assert_eq!(image.size(), Size::new(0, 0));
    assert!(image.pixels().is_empty());
}

#[test]
fn with_content_starts_stale_with_fit_center() {
    let rgb = RgbImage::from_raw(2, 2, vec![9; 12]).unwrap();
    let holder = ImageHolder::with_content(DynamicImage::ImageRgb8(rgb));
    assert_eq!(holder.scale(), ScalePolicy::FitCenter);
    assert_eq!(holder.state(), RenderState::Dirty);
    assert_eq!(holder.size(), Size::new(0, 0));
    assert_eq!(holder.source().size(), Size::new(2, 2));
    assert_eq!(holder.source().pixels().len(), 16);
    assert_eq!(&holder.source().pixels()[0..4], &[9, 9, 9, 255]);
}

#[test]
fn create_starts_stale_with_fit_center() {
    let holder = ImageHolder::create(bitmap(4, 3));
    assert_eq!(holder.scale(), ScalePolicy::FitCenter);
    assert_eq!(holder.state(), RenderState::Dirty);
    assert_eq!(holder.size(), Size::new(0, 0));
    assert_eq!(holder.source().size(), Size::new(4, 3));
    assert!(holder.needs_render(Size::new(0, 0)));
}

#[test]
fn set_scale_reports_a_change_once() {
    let mut holder = ImageHolder::create(bitmap(4, 3));
    assert!(holder.set_scale(ScalePolicy::CropCenter));
    assert_eq!(holder.scale(), ScalePolicy::CropCenter);
    assert!(!holder.set_scale(ScalePolicy::CropCenter));
    assert_eq!(holder.scale(), ScalePolicy::CropCenter);
    assert!(holder.set_scale(ScalePolicy::FitCenter));
    assert_eq!(holder.scale(), ScalePolicy::FitCenter);
}

#[test]
fn set_scale_with_the_policy_in_force_is_a_no_op() {
    let mut holder = ImageHolder::create(bitmap(4, 3));
    assert!(!holder.set_scale(ScalePolicy::FitCenter));
    assert_eq!(holder.scale(), ScalePolicy::FitCenter);
}

#[test]
fn set_scale_twice_turns_a_clean_holder_stale_once() {
    let mut holder = ImageHolder::create(bitmap(4, 3));
    let viewport = Size::new(8, 8);
    assert!(matches!(holder.render(viewport), RenderCommand::Blit(_)));
    holder.finish_render(true);
    assert_eq!(holder.state(), RenderState::Clean);

    let mut transitions = 0;
    for _ in 0..2 {
        let before = holder.state();
        holder.set_scale(ScalePolicy::CropCenter);
        if before == RenderState::Clean && holder.state() == RenderState::Dirty {
            transitions += 1;
        }
    }
    assert_eq!(transitions, 1);
    assert_eq!(holder.state(), RenderState::Dirty);
}

#[test]
fn same_policy_after_render_stays_clean() {
    let mut holder = ImageHolder::create(bitmap(400, 200));
    let viewport = Size::new(100, 100);
    assert!(holder.set_scale(ScalePolicy::CropCenter));
    let command = holder.render(viewport);
    assert_eq!(
        command,
        RenderCommand::Blit(Placement {
            dest: Rect::new(0, 0, 100, 100),
            source: Rect::new(150, 50, 100, 100),
        })
    );
    holder.finish_render(true);
    assert_eq!(holder.state(), RenderState::Clean);

    assert!(!holder.set_scale(ScalePolicy::CropCenter));
    assert_eq!(holder.state(), RenderState::Clean);
    assert!(!holder.needs_render(viewport));
}

#[test]
fn render_issues_the_placement_of_the_policy() {
    let mut holder = ImageHolder::create(bitmap(400, 200));
    let command = holder.render(Size::new(100, 100));
    assert_eq!(
        command,
        RenderCommand::Blit(Placement {
            dest: Rect::new(0, 25, 100, 50),
            source: Rect::new(0, 0, 400, 200),
        })
    );
    assert_eq!(holder.size(), Size::new(100, 100));
    assert_eq!(holder.state(), RenderState::Dirty);
}

#[test]
fn render_is_derived_afresh_each_time() {
    let mut holder = ImageHolder::create(bitmap(400, 200));
    let viewport = Size::new(100, 100);
    let first = holder.render(viewport);
    holder.finish_render(true);
    let second = holder.render(viewport);
    assert_eq!(first, second);
    assert_eq!(holder.state(), RenderState::Clean);
}

#[test]
fn failed_blit_leaves_the_holder_stale() {
    let mut holder = ImageHolder::create(bitmap(400, 200));
    let viewport = Size::new(100, 100);
    let first = holder.render(viewport);
    holder.finish_render(false);
    assert_eq!(holder.state(), RenderState::Dirty);
    assert!(holder.needs_render(viewport));
    assert_eq!(holder.render(viewport), first);
    holder.finish_render(true);
    assert_eq!(holder.state(), RenderState::Clean);
    assert!(!holder.needs_render(viewport));
}

#[test]
fn new_viewport_turns_the_holder_stale() {
    let mut holder = ImageHolder::create(bitmap(400, 200));
    holder.render(Size::new(100, 100));
    holder.finish_render(true);
    assert!(holder.needs_render(Size::new(100, 101)));
    let command = holder.render(Size::new(200, 200));
    assert_eq!(holder.state(), RenderState::Dirty);
    assert_eq!(holder.size(), Size::new(200, 200));
    assert_eq!(
        command,
        RenderCommand::Blit(Placement {
            dest: Rect::new(0, 50, 200, 100),
            source: Rect::new(0, 0, 400, 200),
        })
    );
}

#[test]
fn render_in_a_viewport_without_pixels_is_skipped() {
    let mut holder = ImageHolder::create(bitmap(400, 200));
    assert_eq!(holder.render(Size::new(0, 100)), RenderCommand::Skip);
    assert_eq!(holder.state(), RenderState::Clean);
    assert_eq!(holder.render(Size::new(100, 0)), RenderCommand::Skip);
    assert_eq!(holder.state(), RenderState::Clean);
}

#[test]
fn render_of_a_bitmap_without_pixels_is_skipped() {
    for (w, h) in [(0u32, 7u32), (7, 0)] {
        for policy in [ScalePolicy::FitCenter, ScalePolicy::CropCenter] {
            let mut holder = ImageHolder::create(bitmap(w, h));
            holder.set_scale(policy);
            assert_eq!(holder.render(Size::new(100, 100)), RenderCommand::Skip);
            assert_eq!(holder.state(), RenderState::Clean);
        }
    }
}

#[test]
fn render_skips_where_rounding_leaves_no_row() {
    let mut holder = ImageHolder::create(bitmap(1000, 1));
    assert_eq!(holder.render(Size::new(10, 10)), RenderCommand::Skip);
    assert_eq!(holder.state(), RenderState::Clean);
}

#[test]
fn set_content_turns_the_holder_stale() {
    let mut holder = ImageHolder::create(bitmap(400, 200));
    holder.set_scale(ScalePolicy::CropCenter);
    holder.render(Size::new(100, 100));
    holder.finish_render(true);
    holder.set_content(bitmap(10, 10));
    assert_eq!(holder.state(), RenderState::Dirty);
    assert_eq!(holder.source().size(), Size::new(10, 10));
    assert_eq!(holder.scale(), ScalePolicy::CropCenter);
    assert_eq!(holder.size(), Size::new(100, 100));
}

#[test]
fn measure_wraps_the_intrinsic_size() {
    let mut holder = ImageHolder::create(bitmap(40, 20));
    let measured = holder.measure(Visibility::Visible, wrap(), Size::new(100, 100));
    assert_eq!(measured, (40, 20, true));
    assert_eq!(holder.size(), Size::new(40, 20));
    let again = holder.measure(Visibility::Visible, wrap(), Size::new(100, 100));
    assert_eq!(again, (40, 20, false));
}

#[test]
fn measure_returns_exact_and_fill_constraints() {
    let mut holder = ImageHolder::create(bitmap(40, 20));
    let layout = Layout { width: Constraint::MatchParent, height: Constraint::Exact(33) };
    assert_eq!(holder.measure(Visibility::Visible, layout, Size::new(100, 90)), (100, 33, true));
    assert_eq!(holder.measure(Visibility::Invisible, layout, Size::new(100, 90)), (100, 33, false));
    assert_eq!(holder.measure(Visibility::Visible, layout, Size::new(101, 90)), (101, 33, true));
}

#[test]
fn measure_of_a_gone_widget_collapses_and_render_is_skipped() {
    let mut holder = ImageHolder::create(bitmap(40, 20));
    assert_eq!(holder.measure(Visibility::Visible, wrap(), Size::new(100, 100)), (40, 20, true));
    assert_eq!(holder.measure(Visibility::Gone, wrap(), Size::new(100, 100)), (0, 0, true));
    assert_eq!(holder.size(), Size::new(0, 0));
    assert_eq!(holder.render(holder.size()), RenderCommand::Skip);
}

#[test]
fn measure_to_a_new_size_turns_a_clean_holder_stale() {
    let mut holder = ImageHolder::create(bitmap(40, 20));
    holder.measure(Visibility::Visible, wrap(), Size::new(100, 100));
    holder.render(Size::new(40, 20));
    holder.finish_render(true);
    assert_eq!(holder.state(), RenderState::Clean);
    holder.measure(Visibility::Visible, wrap(), Size::new(500, 500));
    assert_eq!(holder.state(), RenderState::Clean);
    let layout = Layout { width: Constraint::MatchParent, height: Constraint::WrapContent };
    assert_eq!(holder.measure(Visibility::Visible, layout, Size::new(500, 500)), (500, 20, true));
    assert_eq!(holder.state(), RenderState::Dirty);
}

#[test]
fn flipped_reverses_the_rows() {
    let bytes: Vec<u8> = (0u8..24).collect();
    let image = SourceImage::new(2, 3, bytes).unwrap();
    let turned = image.flipped();
    assert_eq!(turned.size(), Size::new(2, 3));
    assert_eq!(
        turned.pixels(),
        &vec![16, 17, 18, 19, 20, 21, 22, 23, 8, 9, 10, 11, 12, 13, 14, 15, 0, 1, 2, 3, 4, 5, 6, 7]
    );
}

#[test]
fn flipped_twice_is_the_same_bitmap() {
    let bytes: Vec<u8> = (0u8..60).collect();
    let image = SourceImage::new(3, 5, bytes.clone()).unwrap();
    assert_eq!(image.flipped().flipped().pixels(), &bytes);
}

#[test]
fn flipped_single_row_is_unchanged() {
    let bytes: Vec<u8> = (0u8..12).collect();
    let image = SourceImage::new(3, 1, bytes.clone()).unwrap();
    assert_eq!(image.flipped().pixels(), &bytes);
}

#[test]
fn flipped_agrees_with_the_image_crate() {
    let bytes: Vec<u8> = (0u8..48).collect();
    let rgba = RgbaImage::from_raw(3, 4, bytes).unwrap();
    let picture = DynamicImage::ImageRgba8(rgba);
    let turned = SourceImage::from_dynamic(&picture).flipped();
    assert_eq!(turned.pixels(), &picture.flipv().to_rgba8().into_raw());
}

#[test]
fn flipped_without_pixels_is_empty() {
    for (w, h) in [(0u32, 0u32), (0, 4), (4, 0), (u32::MAX, 0), (0, u32::MAX)] {
        let image = SourceImage::new(w, h, Vec::new()).unwrap();
        let turned = image.flipped();
        assert_eq!(turned.size(), Size::new(w, h));
        assert!(turned.pixels().is_empty());
    }
}
