use vkrender::render_pass::{
    attachment_layouts, final_pass_plan, present_pass_plan, single_pass_plan, AttachmentLayouts,
    ImageLayout,
};

const C: ImageLayout = ImageLayout::ColorAttachmentOptimal;
const D: ImageLayout = ImageLayout::DepthStencilAttachmentOptimal;

fn l(initial: ImageLayout, final_layout: ImageLayout) -> AttachmentLayouts {
    AttachmentLayouts { initial, final_layout }
}

#[test]
fn final_pass_plans() {
    let p = final_pass_plan(0, false);
    assert_eq!(p.colour, vec![0]);
    assert_eq!(p.depth, None);
    let p = final_pass_plan(2, true);
    assert_eq!(p.colour, vec![0, 1]);
    assert_eq!(p.depth, Some(2));
    let p = final_pass_plan(2, false);
    assert_eq!(p.colour, vec![0, 1, 2]);
    assert_eq!(p.depth, None);
}

#[test]
fn single_pass_plans() {
    let p = single_pass_plan(2, true);
    assert_eq!(p.colour, vec![0]);
    assert_eq!(p.depth, Some(1));
    let p = single_pass_plan(3, false);
    assert_eq!(p.colour, vec![0, 1, 2]);
    assert_eq!(p.depth, None);
    let p = present_pass_plan();
    assert_eq!(p.colour, vec![0]);
    assert_eq!(p.depth, None);
}

#[test]
fn layouts_of_colour_and_depth() {
    let p = single_pass_plan(2, true);
    let ls = attachment_layouts(2, &p.colour, p.depth);
    assert_eq!(ls, vec![l(C, C), l(D, D)]);
}

#[test]
fn attachment_both_colour_and_depth_enters_as_colour() {
    let ls = attachment_layouts(2, &[1, 0], Some(1));
    assert_eq!(ls, vec![l(C, C), l(C, D)]);
}

#[test]
fn layouts_of_colour_only_pass() {
    let p = final_pass_plan(1, false);
    let ls = attachment_layouts(2, &p.colour, p.depth);
    assert_eq!(ls, vec![l(C, C), l(C, C)]);
}

use vkrender::render_pass::{clear_value, forward_load_op, ClearKind, FormatKind, LoadOp};

#[test]
fn forward_pass_clears_depth_and_loads_colour() {
    assert_eq!(forward_load_op(FormatKind::Depth16), LoadOp::Clear);
    assert_eq!(forward_load_op(FormatKind::Rgba8Unorm), LoadOp::Load);
    assert_eq!(forward_load_op(FormatKind::Other), LoadOp::Load);
}

#[test]
fn clear_values_by_format() {
    assert_eq!(clear_value(FormatKind::Rgba8Unorm, LoadOp::Clear), Some(ClearKind::Red));
    assert_eq!(clear_value(FormatKind::Rgba8Srgb, LoadOp::Clear), Some(ClearKind::Red));
    assert_eq!(clear_value(FormatKind::Depth16, LoadOp::Clear), Some(ClearKind::FarDepth));
    assert_eq!(clear_value(FormatKind::Other, LoadOp::Load), None);
    assert_eq!(clear_value(FormatKind::Depth16, LoadOp::Load), None);
}
