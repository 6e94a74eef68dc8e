use vstd::prelude::*;

verus! {

/// The image layouts that a single-subpass render pass uses.
#[derive(Clone, Copy, Debug, PartialEq, Eq, Structural)]
pub enum ImageLayout {
    ColorAttachmentOptimal,
    DepthStencilAttachmentOptimal,
}

/// The layouts an attachment enters and leaves the render pass in.
#[derive(Clone, Copy, Debug, PartialEq, Eq, Structural)]
pub struct AttachmentLayouts {
    pub initial: ImageLayout,
    pub final_layout: ImageLayout,
}

/// What happens to an attachment's contents when the pass begins.
#[derive(Clone, Copy, Debug, PartialEq, Eq, Structural)]
pub enum LoadOp {
    Load,
    Clear,
}

/// The image formats the passes tell apart.
#[derive(Clone, Copy, Debug, PartialEq, Eq, Structural)]
pub enum FormatKind {
    /// `R8G8B8A8_UNORM`.
    Rgba8Unorm,
    /// `R8G8B8A8_SRGB`.
    Rgba8Srgb,
    /// `D16_UNORM`.
    Depth16,
    /// Any other format.
    Other,
}

/// The value an attachment is cleared to.
#[derive(Clone, Copy, Debug, PartialEq, Eq, Structural)]
pub enum ClearKind {
    /// Opaque red `[1, 0, 0, 1]`, which shows what was never drawn over.
    Red,
    /// Depth 1, the far plane.
    FarDepth,
}

/// How a forward-pass attachment of format `format` begins: depth is
/// cleared, colour is loaded.
pub fn forward_load_op(format: FormatKind) -> (res: LoadOp)
    ensures
        res == (if format == FormatKind::Depth16 {
            LoadOp::Clear
        } else {
            LoadOp::Load
        }),
{
    match format {
        FormatKind::Depth16 => LoadOp::Clear,
        _ => LoadOp::Load,
    }
}

/// The clear value of an attachment: none when it is loaded, red for a
/// cleared RGBA8 attachment, the far plane for a cleared depth attachment.
pub fn clear_value(format: FormatKind, load_op: LoadOp) -> (res: Option<ClearKind>)
    requires
        load_op == LoadOp::Clear ==> format != FormatKind::Other,
    ensures
        load_op == LoadOp::Load ==> res is None,
        load_op == LoadOp::Clear && (format == FormatKind::Rgba8Unorm || format
            == FormatKind::Rgba8Srgb) ==> res == Some(ClearKind::Red),
        load_op == LoadOp::Clear && format == FormatKind::Depth16 ==> res == Some(
            ClearKind::FarDepth,
        ),
{
    match load_op {
        LoadOp::Clear => match format {
            FormatKind::Rgba8Unorm | FormatKind::Rgba8Srgb => Some(ClearKind::Red),
            _ => Some(ClearKind::FarDepth),
        },
        LoadOp::Load => None,
    }
}

/// A forward-pass attachment is only ever cleared when its format has a
/// clear value.
pub proof fn law_forward_clear_defined(format: FormatKind)
    ensures
        (if format == FormatKind::Depth16 {
            LoadOp::Clear
        } else {
            LoadOp::Load
        }) == LoadOp::Clear ==> format != FormatKind::Other,
{
}

/// Which attachments of a single subpass are colour attachments, in order,
/// and which one, if any, is the depth attachment.
#[derive(Clone, Debug)]
pub struct AttachmentPlan {
    pub colour: Vec<usize>,
    pub depth: Option<usize>,
}

/// Whether attachment `i` is a colour or the depth attachment.
pub open spec fn is_used(colour: Seq<usize>, depth: Option<usize>, i: int) -> bool {
    colour.contains(i as usize) || depth == Some(i as usize)
}

/// Every index in the plan names one of `n` attachments, and each of the `n`
/// attachments is a colour or the depth attachment.
pub open spec fn plan_covers(colour: Seq<usize>, depth: Option<usize>, n: int) -> bool {
    &&& forall|j: int| 0 <= j < colour.len() ==> colour[j] < n
    &&& depth matches Some(d) ==> d < n
    &&& forall|i: int| 0 <= i < n ==> #[trigger] is_used(colour, depth, i)
}

/// The layouts of attachment `i`: colour attachments enter as colour, the
/// depth attachment leaves as depth, and an attachment used only as depth
/// enters as depth too.
pub open spec fn layouts_of(colour: Seq<usize>, depth: Option<usize>, i: int) -> AttachmentLayouts {
    AttachmentLayouts {
        initial: if colour.contains(i as usize) {
            ImageLayout::ColorAttachmentOptimal
        } else {
            ImageLayout::DepthStencilAttachmentOptimal
        },
        final_layout: if depth == Some(i as usize) {
            ImageLayout::DepthStencilAttachmentOptimal
        } else {
            ImageLayout::ColorAttachmentOptimal
        },
    }
}

/// `0, 1, ..., n - 1`.
pub open spec fn range_seq(n: int) -> Seq<usize> {
    Seq::new(n as nat, |i: int| i as usize)
}

fn range_vec(n: usize) -> (res: Vec<usize>)
    ensures
        res@ == range_seq(n as int),
{
    let mut res: Vec<usize> = Vec::new();
    let mut i: usize = 0;
    while i < n
        invariant
            0 <= i <= n,
            res@ == range_seq(i as int),
        decreases n - i,
    {
        res.push(i);
        assert(res@ =~= range_seq(i + 1));
        i = i + 1;
    }
    res
}

proof fn lemma_range_contains(n: int, i: int)
    requires
        0 <= i < n,
        n <= usize::MAX + 1,
    ensures
        range_seq(n).contains(i as usize),
{
    assert(range_seq(n)[i] == i as usize);
}

proof fn lemma_take_next_contains(s: Seq<usize>, c: int, x: usize)
    requires
        0 <= c < s.len(),
    ensures
        s.take(c + 1).contains(x) == (s.take(c).contains(x) || s[c] == x),
{
    if s.take(c).contains(x) {
        let t = s.take(c);
        let j = choose|j: int| 0 <= j < t.len() && t[j] == x;
        assert(s.take(c + 1)[j] == x);
    }
    if s[c] == x {
        assert(s.take(c + 1)[c] == x);
    }
    if s.take(c + 1).contains(x) {
        let t = s.take(c + 1);
        let j = choose|j: int| 0 <= j < t.len() && t[j] == x;
        if j < c {
            assert(s.take(c)[j] == x);
        }
    }
}

/// The plan of the final pass: the swapchain image is attachment 0 and the
/// `n` extra images follow; with `is_last_depth` the last one is the depth
/// attachment, else all `n + 1` are colour attachments.
pub fn final_pass_plan(n: usize, is_last_depth: bool) -> (res: AttachmentPlan)
    requires
        n < usize::MAX,
    ensures
        is_last_depth ==> res.colour@ == range_seq(n as int) && res.depth == Some(n),
        !is_last_depth ==> res.colour@ == range_seq(n + 1) && res.depth is None,
        plan_covers(res.colour@, res.depth, n + 1),
{
    let res = if is_last_depth {
        AttachmentPlan { colour: range_vec(n), depth: Some(n) }
    } else {
        AttachmentPlan { colour: range_vec(n + 1), depth: None }
    };
    proof {
        assert forall|i: int| 0 <= i < n + 1 implies is_used(res.colour@, res.depth, i) by {
            if is_last_depth {
                if i < n {
                    lemma_range_contains(n as int, i);
                }
            } else {
                lemma_range_contains(n + 1, i);
            }
        }
    }
    res
}

/// The plan of a pass over `n` images: with `is_last_depth` the last image is
/// the depth attachment and the others are colour attachments, else all are
/// colour attachments.
pub fn single_pass_plan(n: usize, is_last_depth: bool) -> (res: AttachmentPlan)
    requires
        is_last_depth ==> n > 0,
    ensures
        is_last_depth ==> res.colour@ == range_seq(n - 1) && res.depth == Some((n - 1) as usize),
        !is_last_depth ==> res.colour@ == range_seq(n as int) && res.depth is None,
        plan_covers(res.colour@, res.depth, n as int),
{
    let res = if is_last_depth {
        AttachmentPlan { colour: range_vec(n - 1), depth: Some(n - 1) }
    } else {
        AttachmentPlan { colour: range_vec(n), depth: None }
    };
    proof {
        assert forall|i: int| 0 <= i < n implies is_used(res.colour@, res.depth, i) by {
            if is_last_depth {
                if i < n - 1 {
                    lemma_range_contains(n - 1, i);
                }
            } else {
                lemma_range_contains(n as int, i);
            }
        }
    }
    res
}

/// The plan of a pass that draws into one swapchain image: a single colour
/// attachment and no depth.
pub fn present_pass_plan() -> (res: AttachmentPlan)
    ensures
        res.colour@ == seq![0usize],
        res.depth is None,
        plan_covers(res.colour@, res.depth, 1),
{
    let mut colour: Vec<usize> = Vec::new();
    colour.push(0);
    let res = AttachmentPlan { colour, depth: None };
    assert(res.colour@ =~= seq![0usize]);
    assert(res.colour@[0] == 0usize);
    res
}

/// The initial and final layout of each of the `attachment_num` attachments
/// of a single subpass with colour attachments `colour` and depth attachment
/// `depth_stencil`.
pub fn attachment_layouts(
    attachment_num: usize,
    colour: &[usize],
    depth_stencil: Option<usize>,
) -> (res: Vec<AttachmentLayouts>)
    requires
        plan_covers(colour@, depth_stencil, attachment_num as int),
    ensures
        res@.len() == attachment_num,
        forall|i: int|
            0 <= i < attachment_num ==> res@[i] == layouts_of(colour@, depth_stencil, i),
        forall|i: int|
            0 <= i < attachment_num ==> (#[trigger] res@[i].initial
                == ImageLayout::ColorAttachmentOptimal <==> colour@.contains(i as usize)),
        forall|i: int|
            0 <= i < attachment_num ==> (#[trigger] res@[i].final_layout
                == ImageLayout::DepthStencilAttachmentOptimal <==> depth_stencil == Some(i as usize)),
{
    let mut initial: Vec<Option<ImageLayout>> = Vec::new();
    let mut last: Vec<Option<ImageLayout>> = Vec::new();
    let mut k: usize = 0;
    while k < attachment_num
        invariant
            0 <= k <= attachment_num,
            initial@.len() == k,
            last@.len() == k,
            forall|i: int| 0 <= i < k ==> initial@[i] is None && last@[i] is None,
        decreases attachment_num - k,
    {
        initial.push(None);
        last.push(None);
        k = k + 1;
    }
    let mut c: usize = 0;
    while c < colour.len()
        invariant
            0 <= c <= colour.len(),
            plan_covers(colour@, depth_stencil, attachment_num as int),
            initial@.len() == attachment_num,
            last@.len() == attachment_num,
            forall|i: int|
                0 <= i < attachment_num ==> (initial@[i] == if colour@.take(c as int).contains(
                    i as usize,
                ) {
                    Some(ImageLayout::ColorAttachmentOptimal)
                } else {
                    None::<ImageLayout>
                }),
            forall|i: int|
                0 <= i < attachment_num ==> (last@[i] == if colour@.take(c as int).contains(
                    i as usize,
                ) {
                    Some(ImageLayout::ColorAttachmentOptimal)
                } else {
                    None::<ImageLayout>
                }),
        decreases colour.len() - c,
    {
        let i = colour[c];
        let ghost old_initial = initial@;
        let ghost old_last = last@;
        if initial[i].is_none() {
            initial.set(i, Some(ImageLayout::ColorAttachmentOptimal));
        }
        last.set(i, Some(ImageLayout::ColorAttachmentOptimal));
        proof {
            assert forall|x: usize| #[trigger]
                colour@.take(c + 1).contains(x) == (colour@.take(c as int).contains(x) || x == i) by {
                lemma_take_next_contains(colour@, c as int, x);
            }
        }
        c = c + 1;
    }
    proof {
        assert(colour@.take(colour@.len() as int) =~= colour@);
    }
    if let Some(d) = depth_stencil {
        last.set(d, Some(ImageLayout::DepthStencilAttachmentOptimal));
        if initial[d].is_none() {
            initial.set(d, Some(ImageLayout::DepthStencilAttachmentOptimal));
        }
    }
    proof {
        assert forall|i: int| 0 <= i < attachment_num implies initial@[i] == Some(
            layouts_of(colour@, depth_stencil, i).initial,
        ) && last@[i] == Some(layouts_of(colour@, depth_stencil, i).final_layout) by {
            assert(is_used(colour@, depth_stencil, i));
        }
    }
    let mut res: Vec<AttachmentLayouts> = Vec::new();
    let mut a: usize = 0;
    while a < attachment_num
        invariant
            0 <= a <= attachment_num,
            plan_covers(colour@, depth_stencil, attachment_num as int),
            initial@.len() == attachment_num,
            last@.len() == attachment_num,
            forall|i: int|
                0 <= i < attachment_num ==> initial@[i] == Some(
                    layouts_of(colour@, depth_stencil, i).initial,
                ),
            forall|i: int|
                0 <= i < attachment_num ==> last@[i] == Some(
                    layouts_of(colour@, depth_stencil, i).final_layout,
                ),
            res@.len() == a,
            forall|i: int| 0 <= i < a ==> res@[i] == layouts_of(colour@, depth_stencil, i),
        decreases attachment_num - a,
    {
        let layouts = AttachmentLayouts { initial: initial[a].unwrap(), final_layout: last[a].unwrap() };
        res.push(layouts);
        a = a + 1;
    }
    res
}

/// Layouts follow the role of each attachment, not its position: one of the
/// colour attachments enters in the colour layout, one used only as depth
/// enters and leaves in the depth layout, the depth attachment always leaves
/// in the depth layout, and a colour attachment that is not the depth one
/// leaves in the colour layout.
pub proof fn law_layouts_follow_roles(colour: Seq<usize>, depth: Option<usize>, i: int)
    requires
        0 <= i <= usize::MAX,
    ensures
        colour.contains(i as usize) ==> layouts_of(colour, depth, i).initial
            == ImageLayout::ColorAttachmentOptimal,
        depth == Some(i as usize) && !colour.contains(i as usize) ==> layouts_of(colour, depth, i)
            == (AttachmentLayouts {
            initial: ImageLayout::DepthStencilAttachmentOptimal,
            final_layout: ImageLayout::DepthStencilAttachmentOptimal,
        }),
        depth == Some(i as usize) ==> layouts_of(colour, depth, i).final_layout
            == ImageLayout::DepthStencilAttachmentOptimal,
        colour.contains(i as usize) && depth != Some(i as usize) ==> layouts_of(colour, depth, i)
            == (AttachmentLayouts {
            initial: ImageLayout::ColorAttachmentOptimal,
            final_layout: ImageLayout::ColorAttachmentOptimal,
        }),
{
}

} // verus!
