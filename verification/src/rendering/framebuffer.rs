//! Framebuffer layouts: which attachment goes to which bind point, how a
//! framebuffer's completeness status is read, and which buffers clearing,
//! invalidating and blitting touch.

use vstd::prelude::*;
use crate::engine::math::UVec2;
use crate::engine::Msaa;
use crate::rendering::gl_enums;
use crate::rendering::texture::SizedTextureFormat;

verus! {

/// Filters used when a blit scales its source.
#[derive(Debug, Clone, Copy, PartialEq, Eq, Structural)]
pub enum TextureFilter {
    Nearest,
    Linear,
}

impl TextureFilter {
    pub fn gl_enum(&self) -> (r: u32)
        ensures
            *self == TextureFilter::Nearest ==> r == gl_enums::NEAREST,
            *self == TextureFilter::Linear ==> r == gl_enums::LINEAR,
    {
        match self {
            TextureFilter::Nearest => gl_enums::NEAREST,
            TextureFilter::Linear => gl_enums::LINEAR,
        }
    }
}

/// Reasons why a framebuffer is not complete.
#[derive(Debug, Clone, Copy, PartialEq, Eq, Structural)]
pub enum FramebufferError {
    Unidentified,
    IncompleteAttachment,
    IncompleteMissingAttachment,
    IncompleteDrawBuffer,
    Unknown,
}

impl FramebufferError {
    /// The human readable description of the error.
    pub fn message(&self) -> (s: &'static str)
        ensures
            *self == FramebufferError::Unidentified ==> s@ == "Undefined framebuffer."@,
            *self == FramebufferError::IncompleteAttachment ==> s@ == "Incomplete framebuffer attachment"@,
            *self == FramebufferError::IncompleteMissingAttachment ==> s@
                == "Incomplete framebuffer. Add at least one attachment to the framebuffer."@,
            *self == FramebufferError::IncompleteDrawBuffer ==> s@
                == "Incomplete draw buffer. Check that all attachments enabled exist in the framebuffer."@,
            *self == FramebufferError::Unknown ==> s@ == "Unknown framebuffer error."@,
    {
        match self {
            FramebufferError::Unidentified => "Undefined framebuffer.",
            FramebufferError::IncompleteAttachment => "Incomplete framebuffer attachment",
            FramebufferError::IncompleteMissingAttachment =>
                "Incomplete framebuffer. Add at least one attachment to the framebuffer.",
            FramebufferError::IncompleteDrawBuffer =>
                "Incomplete draw buffer. Check that all attachments enabled exist in the framebuffer.",
            FramebufferError::Unknown => "Unknown framebuffer error.",
        }
    }
}

/// What an attachment's storage is.
#[derive(Debug, Clone, Copy, PartialEq, Eq, Structural)]
pub enum AttachmentType {
    Texture,
    Renderbuffer,
    Undefined,
}

/// Where an attachment is bound: colour attachments carry their attachment
/// enumerant and their draw buffer index.
#[derive(Debug, Clone, Copy, PartialEq, Eq, Structural)]
pub enum AttachmentBindPoint {
    Color(u32, i32),
    Depth(u32),
    DepthStencil(u32),
    Stencil(u32),
}

impl AttachmentBindPoint {
    pub open spec fn gl_value(self) -> u32 {
        match self {
            AttachmentBindPoint::Color(n, _) => n,
            AttachmentBindPoint::Depth(n) => n,
            AttachmentBindPoint::DepthStencil(n) => n,
            AttachmentBindPoint::Stencil(n) => n,
        }
    }

    /// The attachment enumerant of the bind point.
    pub fn to_gl_enum(&self) -> (r: u32)
        ensures
            r == self.gl_value(),
    {
        match *self {
            AttachmentBindPoint::Color(n, _) => n,
            AttachmentBindPoint::Depth(n) => n,
            AttachmentBindPoint::DepthStencil(n) => n,
            AttachmentBindPoint::Stencil(n) => n,
        }
    }
}

/// The fixed bind point of depth and stencil formats; `None` for colour
/// formats.
pub open spec fn depth_stencil_bind_point(format: SizedTextureFormat) -> Option<AttachmentBindPoint> {
    match format {
        SizedTextureFormat::Depth16
        | SizedTextureFormat::Depth24
        | SizedTextureFormat::Depth32
        | SizedTextureFormat::Depth32f => Some(AttachmentBindPoint::Depth(gl_enums::DEPTH_ATTACHMENT)),
        SizedTextureFormat::Depth24Stencil8
        | SizedTextureFormat::Depth32fStencil8 => Some(
            AttachmentBindPoint::DepthStencil(gl_enums::DEPTH_STENCIL_ATTACHMENT),
        ),
        SizedTextureFormat::StencilIndex8 => Some(AttachmentBindPoint::Stencil(gl_enums::STENCIL_ATTACHMENT)),
        _ => None,
    }
}

/// How an attachment of the given format is to be created.
#[derive(Debug, Clone, Copy, PartialEq, Eq, Structural)]
pub struct FramebufferAttachmentCreateInfo {
    pub format: SizedTextureFormat,
    pub attachment_type: AttachmentType,
}

impl FramebufferAttachmentCreateInfo {
    pub fn new(format: SizedTextureFormat, attachment_type: AttachmentType) -> (r: FramebufferAttachmentCreateInfo)
        ensures
            r.format == format,
            r.attachment_type == attachment_type,
    {
        FramebufferAttachmentCreateInfo { format, attachment_type }
    }

    pub fn format(&self) -> (r: SizedTextureFormat)
        ensures
            r == self.format,
    {
        self.format
    }

    pub fn attachment_type(&self) -> (r: AttachmentType)
        ensures
            r == self.attachment_type,
    {
        self.attachment_type
    }
}

/// An attachment of a created framebuffer.
#[derive(Debug, Clone, Copy, PartialEq, Eq, Structural)]
pub struct FramebufferAttachment {
    pub id: u32,
    pub format: SizedTextureFormat,
    pub attachment_type: AttachmentType,
    pub attachment_bind_point: AttachmentBindPoint,
}

impl FramebufferAttachment {
    pub open spec fn spec_is_depth_stencil(self) -> bool {
        !(self.attachment_bind_point is Color)
    }

    pub fn id(&self) -> (r: u32)
        ensures
            r == self.id,
    {
        self.id
    }

    pub fn format(&self) -> (r: SizedTextureFormat)
        ensures
            r == self.format,
    {
        self.format
    }

    pub fn attachment_type(&self) -> (r: AttachmentType)
        ensures
            r == self.attachment_type,
    {
        self.attachment_type
    }

    /// Whether the attachment is bound as depth, depth-stencil or stencil.
    pub fn is_depth_stencil(&self) -> (r: bool)
        ensures
            r == self.spec_is_depth_stencil(),
    {
        match self.attachment_bind_point {
            AttachmentBindPoint::Depth(_)
            | AttachmentBindPoint::DepthStencil(_)
            | AttachmentBindPoint::Stencil(_) => true,
            _ => false,
        }
    }
}

/// The create infos of texture attachments, in the order given.
pub open spec fn texture_infos(s: Seq<FramebufferAttachmentCreateInfo>) -> Seq<FramebufferAttachmentCreateInfo>
    decreases s.len(),
{
    if s.len() == 0 {
        seq![]
    } else if s.last().attachment_type == AttachmentType::Texture {
        texture_infos(s.drop_last()).push(s.last())
    } else {
        texture_infos(s.drop_last())
    }
}

/// The create infos of renderbuffer attachments, in the order given.
pub open spec fn renderbuffer_infos(s: Seq<FramebufferAttachmentCreateInfo>) -> Seq<FramebufferAttachmentCreateInfo>
    decreases s.len(),
{
    if s.len() == 0 {
        seq![]
    } else if s.last().attachment_type == AttachmentType::Renderbuffer {
        renderbuffer_infos(s.drop_last()).push(s.last())
    } else {
        renderbuffer_infos(s.drop_last())
    }
}

/// The attachments in the order they are created and bound: all textures,
/// then all renderbuffers. Attachments of undefined type are not created.
pub open spec fn attachment_order(s: Seq<FramebufferAttachmentCreateInfo>) -> Seq<FramebufferAttachmentCreateInfo> {
    texture_infos(s) + renderbuffer_infos(s)
}

/// The number of colour (neither depth nor stencil) formats among `s`.
pub open spec fn color_count(s: Seq<FramebufferAttachmentCreateInfo>) -> nat
    decreases s.len(),
{
    if s.len() == 0 {
        0
    } else if depth_stencil_bind_point(s.last().format) is None {
        color_count(s.drop_last()) + 1
    } else {
        color_count(s.drop_last())
    }
}

/// The bind point of the `k`-th attachment in creation order: depth and
/// stencil formats get their fixed bind point, colour formats the next free
/// colour attachment.
pub open spec fn bind_point_at(all: Seq<FramebufferAttachmentCreateInfo>, k: int) -> AttachmentBindPoint {
    match depth_stencil_bind_point(all[k].format) {
        Some(p) => p,
        None => AttachmentBindPoint::Color(
            (gl_enums::COLOR_ATTACHMENT0 + color_count(all.take(k))) as u32,
            color_count(all.take(k)) as i32,
        ),
    }
}

/// The draw buffers of a framebuffer with `n` colour attachments.
pub open spec fn output_locations_for(n: nat) -> Seq<u32> {
    Seq::new(n, |k: int| (gl_enums::COLOR_ATTACHMENT0 + k) as u32)
}

/// Whether any of the attachments is a depth or stencil attachment.
pub open spec fn has_depth_stencil(s: Seq<FramebufferAttachmentCreateInfo>) -> bool {
    exists|k: int| 0 <= k < s.len() && (depth_stencil_bind_point(#[trigger] s[k].format) is Some)
}

/// Attachment counts that keep the colour attachment enumerants in range.
pub open spec fn attachment_count_fits(n: int) -> bool {
    n + gl_enums::COLOR_ATTACHMENT0 <= u32::MAX
}

/// Splitting by type keeps at most the attachments given.
proof fn lemma_filtered_len(s: Seq<FramebufferAttachmentCreateInfo>)
    ensures
        texture_infos(s).len() + renderbuffer_infos(s).len() <= s.len(),
    decreases s.len(),
{
    if s.len() > 0 {
        lemma_filtered_len(s.drop_last());
    }
}

/// There are at most as many colour formats as attachments.
proof fn lemma_color_count_le(s: Seq<FramebufferAttachmentCreateInfo>)
    ensures
        color_count(s) <= s.len(),
    decreases s.len(),
{
    if s.len() > 0 {
        lemma_color_count_le(s.drop_last());
    }
}

/// Where each attachment of a framebuffer under construction is bound.
pub struct FramebufferLayout {
    pub texture_infos: Vec<FramebufferAttachmentCreateInfo>,
    pub texture_bind_points: Vec<AttachmentBindPoint>,
    pub renderbuffer_infos: Vec<FramebufferAttachmentCreateInfo>,
    pub renderbuffer_bind_points: Vec<AttachmentBindPoint>,
    pub output_locations: Vec<u32>,
    pub has_depth: bool,
}

impl FramebufferLayout {
    /// The layout that the create infos describe, exactly as laid out by
    /// `attachment_order`, `bind_point_at` and `output_locations_for`.
    pub open spec fn describes(self, infos: Seq<FramebufferAttachmentCreateInfo>) -> bool {
        let all = attachment_order(infos);
        let nt = texture_infos(infos).len();
        &&& self.texture_infos@ == texture_infos(infos)
        &&& self.renderbuffer_infos@ == renderbuffer_infos(infos)
        &&& self.texture_bind_points@.len() == nt
        &&& self.renderbuffer_bind_points@.len() == renderbuffer_infos(infos).len()
        &&& forall|k: int| 0 <= k < nt ==> #[trigger] self.texture_bind_points@[k] == bind_point_at(all, k)
        &&& forall|k: int|
            0 <= k < self.renderbuffer_bind_points@.len() ==> #[trigger] self.renderbuffer_bind_points@[k]
                == bind_point_at(all, nt + k)
        &&& self.output_locations@ == output_locations_for(color_count(all))
        &&& self.has_depth == has_depth_stencil(all)
    }
}

fn collect_by_type(
    infos: &Vec<FramebufferAttachmentCreateInfo>,
    wanted: AttachmentType,
) -> (r: Vec<FramebufferAttachmentCreateInfo>)
    requires
        wanted == AttachmentType::Texture || wanted == AttachmentType::Renderbuffer,
    ensures
        wanted == AttachmentType::Texture ==> r@ == texture_infos(infos@),
        wanted == AttachmentType::Renderbuffer ==> r@ == renderbuffer_infos(infos@),
{
    let mut r: Vec<FramebufferAttachmentCreateInfo> = Vec::new();
    let mut i: usize = 0;
    while i < infos.len()
        invariant
            i <= infos.len(),
            wanted == AttachmentType::Texture || wanted == AttachmentType::Renderbuffer,
            wanted == AttachmentType::Texture ==> r@ == texture_infos(infos@.take(i as int)),
            wanted == AttachmentType::Renderbuffer ==> r@ == renderbuffer_infos(infos@.take(i as int)),
        decreases infos.len() - i,
    {
        assert(infos@.take(i + 1).drop_last() == infos@.take(i as int));
        if infos[i].attachment_type == wanted {
            r.push(infos[i]);
        }
        i += 1;
    }
    assert(infos@.take(infos.len() as int) == infos@);
    r
}

/// The bind point of an attachment of the given format, or `None` when the
/// format is a colour format.
pub fn is_depth_stencil_attachment(format: SizedTextureFormat) -> (r: Option<AttachmentBindPoint>)
    ensures
        r == depth_stencil_bind_point(format),
{
    match format {
        SizedTextureFormat::Depth16
        | SizedTextureFormat::Depth24
        | SizedTextureFormat::Depth32
        | SizedTextureFormat::Depth32f => Some(AttachmentBindPoint::Depth(gl_enums::DEPTH_ATTACHMENT)),
        SizedTextureFormat::Depth24Stencil8
        | SizedTextureFormat::Depth32fStencil8 => Some(
            AttachmentBindPoint::DepthStencil(gl_enums::DEPTH_STENCIL_ATTACHMENT),
        ),
        SizedTextureFormat::StencilIndex8 => Some(AttachmentBindPoint::Stencil(gl_enums::STENCIL_ATTACHMENT)),
        _ => None,
    }
}

/// Lays out the attachments of a framebuffer: textures are bound before
/// renderbuffers, colour attachments take consecutive colour attachment
/// points in that order, and the draw buffers are exactly those points.
pub fn layout_attachments(infos: &Vec<FramebufferAttachmentCreateInfo>) -> (r: FramebufferLayout)
    requires
        attachment_count_fits(infos.len() as int),
    ensures
        r.describes(infos@),
{
    let tex = collect_by_type(infos, AttachmentType::Texture);
    let rb = collect_by_type(infos, AttachmentType::Renderbuffer);
    let ghost all = tex@ + rb@;
    proof {
        lemma_filtered_len(infos@);
    }
    let nt = tex.len();
    let mut tex_points: Vec<AttachmentBindPoint> = Vec::new();
    let mut rb_points: Vec<AttachmentBindPoint> = Vec::new();
    let mut outputs: Vec<u32> = Vec::new();
    let mut colors: u32 = 0;
    let mut has_depth = false;
    let mut k: usize = 0;
    let total = nt + rb.len();
    while k < total
        invariant
            all == tex@ + rb@,
            nt == tex.len(),
            total == all.len(),
            all.len() <= infos.len(),
            attachment_count_fits(infos.len() as int),
            k <= total,
            colors == color_count(all.take(k as int)),
            colors <= k,
            k <= nt ==> tex_points@.len() == k && rb_points@.len() == 0,
            k > nt ==> tex_points@.len() == nt && rb_points@.len() == k - nt,
            forall|j: int| 0 <= j < tex_points@.len() ==> #[trigger] tex_points@[j] == bind_point_at(all, j),
            forall|j: int| 0 <= j < rb_points@.len() ==> #[trigger] rb_points@[j] == bind_point_at(all, nt + j),
            outputs@ == output_locations_for(colors as nat),
            has_depth == has_depth_stencil(all.take(k as int)),
        decreases total - k,
    {
        let info = if k < nt { tex[k] } else { rb[k - nt] };
        assert(info == all[k as int]);
        assert(all.take(k + 1).drop_last() == all.take(k as int));
        assert(all.take(k + 1)[k as int] == all[k as int]);
        let point = match is_depth_stencil_attachment(info.format) {
            Some(p) => {
                has_depth = true;
                p
            },
            None => {
                let location = gl_enums::COLOR_ATTACHMENT0 + colors;
                outputs.push(location);
                let p = AttachmentBindPoint::Color(location, colors as i32);
                colors = colors + 1;
                p
            },
        };
        assert(point == bind_point_at(all, k as int));
        if k < nt {
            tex_points.push(point);
        } else {
            rb_points.push(point);
        }
        proof {
            let t1 = all.take(k + 1);
            let t0 = all.take(k as int);
            if depth_stencil_bind_point(info.format) is Some {
                assert(t1[k as int] == info);
                assert(has_depth_stencil(t1));
            } else {
                if has_depth_stencil(t1) {
                    let w = choose|w: int| 0 <= w < t1.len() && (depth_stencil_bind_point(#[trigger] t1[w].format) is Some);
                    assert(w != k);
                    assert(t0[w] == t1[w]);
                }
                if has_depth_stencil(t0) {
                    let w = choose|w: int| 0 <= w < t0.len() && (depth_stencil_bind_point(#[trigger] t0[w].format) is Some);
                    assert(t0[w] == t1[w]);
                }
            }
            assert(outputs@ =~= output_locations_for(colors as nat));
        }
        k += 1;
    }
    assert(all.take(total as int) == all);
    FramebufferLayout {
        texture_infos: tex,
        texture_bind_points: tex_points,
        renderbuffer_infos: rb,
        renderbuffer_bind_points: rb_points,
        output_locations: outputs,
        has_depth,
    }
}

/// Reads a framebuffer completeness status: the four incompleteness codes
/// the engine reports are errors, every other status is success.
pub open spec fn spec_status_result(status: u32) -> Result<(), FramebufferError> {
    if status == gl_enums::FRAMEBUFFER_UNDEFINED {
        Err(FramebufferError::Unidentified)
    } else if status == gl_enums::FRAMEBUFFER_INCOMPLETE_ATTACHMENT {
        Err(FramebufferError::IncompleteAttachment)
    } else if status == gl_enums::FRAMEBUFFER_INCOMPLETE_MISSING_ATTACHMENT {
        Err(FramebufferError::IncompleteMissingAttachment)
    } else if status == gl_enums::FRAMEBUFFER_INCOMPLETE_DRAW_BUFFER {
        Err(FramebufferError::IncompleteDrawBuffer)
    } else {
        Ok(())
    }
}

/// What clearing one attachment writes: colour attachments are cleared to
/// the clear colour through their draw buffer index, depth to 1, depth-stencil
/// to depth 1 and stencil 0, stencil to 1.
#[derive(Debug, Clone, Copy, PartialEq, Eq, Structural)]
pub enum ClearCommand {
    Color(i32),
    Depth,
    DepthStencil,
    Stencil,
}

pub open spec fn clear_command_for(p: AttachmentBindPoint) -> ClearCommand {
    match p {
        AttachmentBindPoint::Color(_, i) => ClearCommand::Color(i),
        AttachmentBindPoint::Depth(_) => ClearCommand::Depth,
        AttachmentBindPoint::DepthStencil(_) => ClearCommand::DepthStencil,
        AttachmentBindPoint::Stencil(_) => ClearCommand::Stencil,
    }
}

/// Whether clearing with `c` writes the depth buffer.
pub open spec fn clears_depth(c: ClearCommand) -> bool {
    c is Depth || c is DepthStencil
}

/// Whether clearing with `c` writes the stencil buffer.
pub open spec fn clears_stencil(c: ClearCommand) -> bool {
    c is DepthStencil || c is Stencil
}

/// Whether an attachment at bind point `p` holds depth.
pub open spec fn holds_depth(p: AttachmentBindPoint) -> bool {
    p is Depth || p is DepthStencil
}

/// Whether an attachment at bind point `p` holds stencil.
pub open spec fn holds_stencil(p: AttachmentBindPoint) -> bool {
    p is DepthStencil || p is Stencil
}

/// Clearing an attachment writes exactly the buffers it holds: depth when it
/// holds depth, stencil when it holds stencil, and a colour attachment
/// through its own draw buffer index and nothing else.
pub proof fn lemma_clear_writes_exactly_the_attachment(p: AttachmentBindPoint)
    ensures
        clears_depth(clear_command_for(p)) == holds_depth(p),
        clears_stencil(clear_command_for(p)) == holds_stencil(p),
        (clear_command_for(p) is Color) == (p is Color),
        p is Color ==> clear_command_for(p)->Color_0 == p->Color_1,
{
}

/// The number of colour attachments among `s`.
pub open spec fn color_attachment_count(s: Seq<FramebufferAttachment>) -> nat
    decreases s.len(),
{
    if s.len() == 0 {
        0
    } else if s.last().spec_is_depth_stencil() {
        color_attachment_count(s.drop_last())
    } else {
        color_attachment_count(s.drop_last()) + 1
    }
}

/// The abstract state of a framebuffer.
pub struct FramebufferView {
    pub id: u32,
    pub size: UVec2,
    pub texture_attachments: Seq<FramebufferAttachment>,
    pub renderbuffer_attachments: Seq<FramebufferAttachment>,
    pub output_locations: Seq<u32>,
    pub samples: u32,
    pub has_depth: bool,
}

impl FramebufferView {
    /// All attachments in binding order: textures, then renderbuffers.
    pub open spec fn attachments(self) -> Seq<FramebufferAttachment> {
        self.texture_attachments + self.renderbuffer_attachments
    }
}

/// A created framebuffer object and the attachments bound to it.
#[derive(Debug)]
pub struct Framebuffer {
    id: u32,
    size: UVec2,
    texture_attachments: Vec<FramebufferAttachment>,
    renderbuffer_attachments: Vec<FramebufferAttachment>,
    output_locations: Vec<u32>,
    samples: u32,
    has_depth: bool,
}

impl Framebuffer {
    #[verifier::type_invariant]
    spec fn attachments_fit(self) -> bool {
        attachment_count_fits((self.texture_attachments@.len() + self.renderbuffer_attachments@.len()) as int)
    }
}

impl View for Framebuffer {
    type V = FramebufferView;

    closed spec fn view(&self) -> FramebufferView {
        FramebufferView {
            id: self.id,
            size: self.size,
            texture_attachments: self.texture_attachments@,
            renderbuffer_attachments: self.renderbuffer_attachments@,
            output_locations: self.output_locations@,
            samples: self.samples,
            has_depth: self.has_depth,
        }
    }
}

/// The attachments that the created objects `ids` become, bound as laid out.
pub open spec fn attachments_from(
    infos: Seq<FramebufferAttachmentCreateInfo>,
    ids: Seq<u32>,
    points: Seq<AttachmentBindPoint>,
) -> Seq<FramebufferAttachment> {
    Seq::new(
        infos.len(),
        |k: int|
            FramebufferAttachment {
                id: ids[k],
                format: infos[k].format,
                attachment_type: infos[k].attachment_type,
                attachment_bind_point: points[k],
            },
    )
}

fn make_attachments(
    infos: &Vec<FramebufferAttachmentCreateInfo>,
    ids: &Vec<u32>,
    points: &Vec<AttachmentBindPoint>,
) -> (r: Vec<FramebufferAttachment>)
    requires
        ids.len() == infos.len(),
        points.len() == infos.len(),
    ensures
        r@ == attachments_from(infos@, ids@, points@),
{
    let mut r: Vec<FramebufferAttachment> = Vec::new();
    let mut i: usize = 0;
    while i < infos.len()
        invariant
            i <= infos.len(),
            ids.len() == infos.len(),
            points.len() == infos.len(),
            r@ == attachments_from(infos@, ids@, points@).take(i as int),
        decreases infos.len() - i,
    {
        r.push(
            FramebufferAttachment {
                id: ids[i],
                format: infos[i].format,
                attachment_type: infos[i].attachment_type,
                attachment_bind_point: points[i],
            },
        );
        i += 1;
        assert(r@ =~= attachments_from(infos@, ids@, points@).take(i as int));
    }
    assert(attachments_from(infos@, ids@, points@).take(infos.len() as int) =~= attachments_from(
        infos@,
        ids@,
        points@,
    ));
    r
}

impl Framebuffer {
    /// Reads a framebuffer completeness status.
    pub fn check_status(status: u32) -> (r: Result<(), FramebufferError>)
        ensures
            r == spec_status_result(status),
    {
        if status == gl_enums::FRAMEBUFFER_UNDEFINED {
            Err(FramebufferError::Unidentified)
        } else if status == gl_enums::FRAMEBUFFER_INCOMPLETE_ATTACHMENT {
            Err(FramebufferError::IncompleteAttachment)
        } else if status == gl_enums::FRAMEBUFFER_INCOMPLETE_MISSING_ATTACHMENT {
            Err(FramebufferError::IncompleteMissingAttachment)
        } else if status == gl_enums::FRAMEBUFFER_INCOMPLETE_DRAW_BUFFER {
            Err(FramebufferError::IncompleteDrawBuffer)
        } else {
            Ok(())
        }
    }

    /// The bind point of an attachment of the given format, or `None` when the
    /// format is a colour format.
    pub fn is_depth_stencil_attachment(format: SizedTextureFormat) -> (r: Option<AttachmentBindPoint>)
        ensures
            r == depth_stencil_bind_point(format),
    {
        is_depth_stencil_attachment(format)
    }

    /// Assembles a framebuffer from the object `id`, the texture and
    /// renderbuffer objects created for the create infos (in the order of
    /// `texture_infos` and `renderbuffer_infos`) and the completeness status
    /// read back once everything was attached. An incomplete status is an
    /// error; otherwise the attachments are bound as `layout_attachments`
    /// lays them out.
    pub fn new(
        id: u32,
        size: UVec2,
        msaa: Msaa,
        attachment_create_infos: &Vec<FramebufferAttachmentCreateInfo>,
        texture_ids: &Vec<u32>,
        renderbuffer_ids: &Vec<u32>,
        status: u32,
    ) -> (r: Result<Framebuffer, FramebufferError>)
        requires
            attachment_count_fits(attachment_create_infos.len() as int),
            texture_ids.len() == texture_infos(attachment_create_infos@).len(),
            renderbuffer_ids.len() == renderbuffer_infos(attachment_create_infos@).len(),
        ensures
            spec_status_result(status) is Err ==> r == Err::<Framebuffer, FramebufferError>(
                spec_status_result(status)->Err_0,
            ),
            spec_status_result(status) is Ok ==> r is Ok && ({
                let fb = r->Ok_0@;
                let infos = attachment_create_infos@;
                let all = attachment_order(infos);
                let nt = texture_infos(infos).len();
                &&& fb.id == id
                &&& fb.size == size
                &&& fb.samples == msaa.spec_samples()
                &&& fb.has_depth == has_depth_stencil(all)
                &&& fb.output_locations == output_locations_for(color_count(all))
                &&& fb.texture_attachments.len() == nt
                &&& fb.renderbuffer_attachments.len() == renderbuffer_infos(infos).len()
                &&& forall|k: int|
                    0 <= k < nt ==> #[trigger] fb.texture_attachments[k] == (FramebufferAttachment {
                        id: texture_ids@[k],
                        format: texture_infos(infos)[k].format,
                        attachment_type: AttachmentType::Texture,
                        attachment_bind_point: bind_point_at(all, k),
                    })
                &&& forall|k: int|
                    0 <= k < fb.renderbuffer_attachments.len() ==> #[trigger] fb.renderbuffer_attachments[k]
                        == (FramebufferAttachment {
                        id: renderbuffer_ids@[k],
                        format: renderbuffer_infos(infos)[k].format,
                        attachment_type: AttachmentType::Renderbuffer,
                        attachment_bind_point: bind_point_at(all, nt + k),
                    })
            }),
    {
        let layout = layout_attachments(attachment_create_infos);
        match Self::check_status(status) {
            Err(e) => Err(e),
            Ok(()) => {
                let texture_attachments = make_attachments(
                    &layout.texture_infos,
                    texture_ids,
                    &layout.texture_bind_points,
                );
                let renderbuffer_attachments = make_attachments(
                    &layout.renderbuffer_infos,
                    renderbuffer_ids,
                    &layout.renderbuffer_bind_points,
                );
                proof {
                    lemma_filtered_len(attachment_create_infos@);
                    lemma_texture_infos_type(attachment_create_infos@);
                    lemma_renderbuffer_infos_type(attachment_create_infos@);
                }
                Ok(
                    Framebuffer {
                        id,
                        size,
                        texture_attachments,
                        renderbuffer_attachments,
                        output_locations: layout.output_locations,
                        samples: msaa.samples(),
                        has_depth: layout.has_depth,
                    },
                )
            },
        }
    }

    pub fn id(&self) -> (r: u32)
        ensures
            r == self@.id,
    {
        self.id
    }

    pub fn size(&self) -> (r: UVec2)
        ensures
            r == self@.size,
    {
        self.size
    }

    pub fn samples(&self) -> (r: u32)
        ensures
            r == self@.samples,
    {
        self.samples
    }

    pub fn has_depth(&self) -> (r: bool)
        ensures
            r == self@.has_depth,
    {
        self.has_depth
    }

    pub fn texture_attachments(&self) -> (r: &Vec<FramebufferAttachment>)
        ensures
            r@ == self@.texture_attachments,
    {
        &self.texture_attachments
    }

    pub fn renderbuffer_attachments(&self) -> (r: &Vec<FramebufferAttachment>)
        ensures
            r@ == self@.renderbuffer_attachments,
    {
        &self.renderbuffer_attachments
    }

    pub fn output_locations(&self) -> (r: &Vec<u32>)
        ensures
            r@ == self@.output_locations,
    {
        &self.output_locations
    }

    /// The texture attachment at `index`.
    pub fn texture_attachment(&self, index: usize) -> (r: FramebufferAttachment)
        requires
            index < self@.texture_attachments.len(),
        ensures
            r == self@.texture_attachments[index as int],
    {
        self.texture_attachments[index]
    }

    /// What clearing the framebuffer writes, one command per attachment in
    /// binding order.
    pub fn clear_commands(&self) -> (r: Vec<ClearCommand>)
        ensures
            r@.len() == self@.attachments().len(),
            forall|k: int|
                0 <= k < r@.len() ==> #[trigger] r@[k] == clear_command_for(
                    self@.attachments()[k].attachment_bind_point,
                ),
            forall|k: int|
                0 <= k < r@.len() ==> ({
                    let p = self@.attachments()[k].attachment_bind_point;
                    &&& clears_depth(#[trigger] r@[k]) == holds_depth(p)
                    &&& clears_stencil(r@[k]) == holds_stencil(p)
                    &&& (r@[k] is Color) == (p is Color)
                    &&& p is Color ==> r@[k]->Color_0 == p->Color_1
                }),
    {
        proof {
            use_type_invariant(self);
        }
        let mut r: Vec<ClearCommand> = Vec::new();
        let ghost all = self@.attachments();
        let nt = self.texture_attachments.len();
        let total = nt + self.renderbuffer_attachments.len();
        let mut k: usize = 0;
        while k < total
            invariant
                all == self@.attachments(),
                nt == self@.texture_attachments.len(),
                total == all.len(),
                k <= total,
                r@.len() == k,
                forall|j: int| 0 <= j < k ==> #[trigger] r@[j] == clear_command_for(all[j].attachment_bind_point),
            decreases total - k,
        {
            let a = if k < nt { self.texture_attachments[k] } else { self.renderbuffer_attachments[k - nt] };
            assert(a == all[k as int]);
            let c = match a.attachment_bind_point {
                AttachmentBindPoint::Color(_, i) => ClearCommand::Color(i),
                AttachmentBindPoint::Depth(_) => ClearCommand::Depth,
                AttachmentBindPoint::DepthStencil(_) => ClearCommand::DepthStencil,
                AttachmentBindPoint::Stencil(_) => ClearCommand::Stencil,
            };
            r.push(c);
            k += 1;
        }
        r
    }

    /// The attachment points whose contents are discarded when the
    /// framebuffer is invalidated: those of the renderbuffer attachments.
    pub fn invalidation_targets(&self) -> (r: Vec<u32>)
        ensures
            r@.len() == self@.renderbuffer_attachments.len(),
            forall|k: int|
                0 <= k < r@.len() ==> #[trigger] r@[k]
                    == self@.renderbuffer_attachments[k].attachment_bind_point.gl_value(),
    {
        let mut r: Vec<u32> = Vec::new();
        let mut k: usize = 0;
        while k < self.renderbuffer_attachments.len()
            invariant
                k <= self@.renderbuffer_attachments.len(),
                r@.len() == k,
                forall|j: int|
                    0 <= j < k ==> #[trigger] r@[j]
                        == self@.renderbuffer_attachments[j].attachment_bind_point.gl_value(),
            decreases self@.renderbuffer_attachments.len() - k,
        {
            r.push(self.renderbuffer_attachments[k].attachment_bind_point.to_gl_enum());
            k += 1;
        }
        r
    }

    /// The number of colour attachments, textures and renderbuffers together.
    pub fn color_attachment_count(&self) -> (r: usize)
        ensures
            r == color_attachment_count(self@.attachments()),
    {
        proof {
            use_type_invariant(self);
        }
        let ghost all = self@.attachments();
        let nt = self.texture_attachments.len();
        let total = nt + self.renderbuffer_attachments.len();
        let mut n: usize = 0;
        let mut k: usize = 0;
        while k < total
            invariant
                all == self@.attachments(),
                nt == self@.texture_attachments.len(),
                total == all.len(),
                k <= total,
                n == color_attachment_count(all.take(k as int)),
                n <= k,
            decreases total - k,
        {
            let a = if k < nt { self.texture_attachments[k] } else { self.renderbuffer_attachments[k - nt] };
            assert(a == all[k as int]);
            assert(all.take(k + 1).drop_last() == all.take(k as int));
            if !a.is_depth_stencil() {
                n += 1;
            }
            k += 1;
        }
        assert(all.take(total as int) == all);
        n
    }

    /// The colour buffers a blit copies, read from the source and drawn to
    /// the destination in the same order: one per colour attachment.
    pub fn blit_color_buffers(source: &Framebuffer, destination: &Framebuffer) -> (r: Vec<u32>)
        requires
            color_attachment_count(source@.attachments()) == color_attachment_count(
                destination@.attachments(),
            ),
            attachment_count_fits(color_attachment_count(source@.attachments()) as int),
        ensures
            r@ == output_locations_for(color_attachment_count(source@.attachments())),
    {
        let n = source.color_attachment_count();
        let mut r: Vec<u32> = Vec::new();
        let mut i: usize = 0;
        while i < n
            invariant
                i <= n,
                attachment_count_fits(n as int),
                r@ == output_locations_for(i as nat),
            decreases n - i,
        {
            r.push(gl_enums::COLOR_ATTACHMENT0 + i as u32);
            i += 1;
            assert(r@ =~= output_locations_for(i as nat));
        }
        r
    }
}

/// The texture create infos are all of texture type.
proof fn lemma_texture_infos_type(s: Seq<FramebufferAttachmentCreateInfo>)
    ensures
        forall|k: int|
            0 <= k < texture_infos(s).len() ==> (#[trigger] texture_infos(s)[k]).attachment_type
                == AttachmentType::Texture,
    decreases s.len(),
{
    if s.len() > 0 {
        lemma_texture_infos_type(s.drop_last());
    }
}

/// The renderbuffer create infos are all of renderbuffer type.
proof fn lemma_renderbuffer_infos_type(s: Seq<FramebufferAttachmentCreateInfo>)
    ensures
        forall|k: int|
            0 <= k < renderbuffer_infos(s).len() ==> (#[trigger] renderbuffer_infos(s)[k]).attachment_type
                == AttachmentType::Renderbuffer,
    decreases s.len(),
{
    if s.len() > 0 {
        lemma_renderbuffer_infos_type(s.drop_last());
    }
}

/// The key under which temporary framebuffers of a colour format and an
/// optional depth format are pooled: the sum of the formats' enumerants.
pub open spec fn pool_key(format: SizedTextureFormat, depth_format: Option<SizedTextureFormat>) -> u32 {
    (format.gl_value() + match depth_format {
        Some(d) => d.gl_value(),
        None => 0,
    }) as u32
}

/// A pooled framebuffer: its pool key and size, the frame it was last
/// released in, whether it is handed out, and the host's handle for it.
#[derive(Debug, Clone, Copy, PartialEq, Eq, Structural)]
pub struct PoolEntry {
    pub key: u32,
    pub size: UVec2,
    pub last_used: u64,
    pub in_use: bool,
    pub handle: u64,
}

/// A free entry that can serve a request for `key` and `size`.
pub open spec fn serves(e: PoolEntry, key: u32, size: UVec2) -> bool {
    e.key == key && !e.in_use && e.size == size
}

/// `i` is the first entry of `s` that can serve the request.
pub open spec fn is_first_serving(s: Seq<PoolEntry>, key: u32, size: UVec2, i: int) -> bool {
    &&& 0 <= i < s.len()
    &&& serves(s[i], key, size)
    &&& forall|j: int| 0 <= j < i ==> !serves(#[trigger] s[j], key, size)
}

/// An entry after a collection in frame `now`: a handed-out framebuffer that
/// nobody holds any more becomes free, last used now.
pub open spec fn after_release(e: PoolEntry, released: Seq<u64>, now: u64) -> PoolEntry {
    if e.in_use && released.contains(e.handle) {
        PoolEntry { in_use: false, last_used: now, ..e }
    } else {
        e
    }
}

/// Entries are kept while handed out or for `keepalive` frames after their
/// last use.
pub open spec fn kept(e: PoolEntry, now: u64, keepalive: u8) -> bool {
    e.in_use || now - e.last_used < keepalive
}

/// The entries that survive a collection, in their order.
pub open spec fn collected(s: Seq<PoolEntry>, released: Seq<u64>, now: u64, keepalive: u8) -> Seq<PoolEntry>
    decreases s.len(),
{
    if s.len() == 0 {
        seq![]
    } else {
        let rest = collected(s.drop_last(), released, now, keepalive);
        let e = after_release(s.last(), released, now);
        if kept(e, now, keepalive) {
            rest.push(e)
        } else {
            rest
        }
    }
}

/// The handles of the entries that a collection discards, in their order.
pub open spec fn discarded(s: Seq<PoolEntry>, released: Seq<u64>, now: u64, keepalive: u8) -> Seq<u64>
    decreases s.len(),
{
    if s.len() == 0 {
        seq![]
    } else {
        let rest = discarded(s.drop_last(), released, now, keepalive);
        let e = after_release(s.last(), released, now);
        if kept(e, now, keepalive) {
            rest
        } else {
            rest.push(e.handle)
        }
    }
}

/// Whether some entry of `s` carries `handle`.
pub open spec fn holds_handle(s: Seq<PoolEntry>, handle: u64) -> bool {
    exists|k: int| 0 <= k < s.len() && (#[trigger] s[k]).handle == handle
}

/// No entry of `s` was last used after frame `now`.
pub open spec fn dated_by(s: Seq<PoolEntry>, now: u64) -> bool {
    forall|k: int| 0 <= k < s.len() ==> (#[trigger] s[k]).last_used <= now
}

/// No handle is pooled twice.
pub open spec fn handles_distinct(s: Seq<PoolEntry>) -> bool {
    forall|j: int, k: int| 0 <= j < s.len() && 0 <= k < s.len() && j != k ==> (#[trigger] s[j]).handle != (#[trigger] s[k]).handle
}

/// The abstract state of the pool.
pub struct PoolView {
    pub entries: Seq<PoolEntry>,
    pub keepalive_frames: u8,
    pub current_frame: u64,
}

/// A pool of framebuffers reused across frames: a request is served by the
/// first free framebuffer of the same formats and size, and framebuffers that
/// stay unused for `keepalive_frames` collections are discarded.
pub struct TemporaryFramebufferPool {
    entries: Vec<PoolEntry>,
    keepalive_frames: u8,
    current_frame: u64,
}

impl View for TemporaryFramebufferPool {
    type V = PoolView;

    closed spec fn view(&self) -> PoolView {
        PoolView {
            entries: self.entries@,
            keepalive_frames: self.keepalive_frames,
            current_frame: self.current_frame,
        }
    }
}

impl PoolView {
    /// No entry is dated after the current frame, and every handle is pooled
    /// at most once.
    pub open spec fn wf(self) -> bool {
        &&& dated_by(self.entries, self.current_frame)
        &&& handles_distinct(self.entries)
    }
}

fn contains_u64(v: &Vec<u64>, x: u64) -> (r: bool)
    ensures
        r == v@.contains(x),
{
    let mut i: usize = 0;
    while i < v.len()
        invariant
            i <= v.len(),
            forall|j: int| 0 <= j < i ==> v@[j] != x,
        decreases v.len() - i,
    {
        if v[i] == x {
            assert(v@[i as int] == x);
            return true;
        }
        i += 1;
    }
    false
}

/// The attachments of a temporary framebuffer: a colour texture of
/// `format`, then a depth texture of `depth_format` when one is asked for.
pub open spec fn temporary_infos(
    format: SizedTextureFormat,
    depth_format: Option<SizedTextureFormat>,
) -> Seq<FramebufferAttachmentCreateInfo> {
    let color = FramebufferAttachmentCreateInfo { format, attachment_type: AttachmentType::Texture };
    match depth_format {
        Some(d) => seq![color, FramebufferAttachmentCreateInfo { format: d, attachment_type: AttachmentType::Texture }],
        None => seq![color],
    }
}

impl TemporaryFramebufferPool {
    /// An empty pool that keeps free framebuffers for `keepalive_frames`
    /// frames.
    pub fn new(keepalive_frames: u8) -> (r: Self)
        ensures
            r@.entries.len() == 0,
            r@.keepalive_frames == keepalive_frames,
            r@.current_frame == 0,
            r@.wf(),
    {
        TemporaryFramebufferPool { entries: Vec::new(), keepalive_frames, current_frame: 0 }
    }

    /// The key under which framebuffers of these formats are pooled.
    pub fn framebuffer_key(format: SizedTextureFormat, depth_format: Option<SizedTextureFormat>) -> (r: u32)
        ensures
            r == pool_key(format, depth_format),
    {
        let base = format.gl_enum();
        match depth_format {
            Some(d) => base + d.gl_enum(),
            None => base,
        }
    }

    /// The attachments the host creates a temporary framebuffer with when no
    /// pooled one serves a request; it is created without multisampling.
    pub fn temporary_attachment_infos(
        format: SizedTextureFormat,
        depth_format: Option<SizedTextureFormat>,
    ) -> (r: Vec<FramebufferAttachmentCreateInfo>)
        ensures
            r@ == temporary_infos(format, depth_format),
    {
        let mut r: Vec<FramebufferAttachmentCreateInfo> = Vec::new();
        r.push(FramebufferAttachmentCreateInfo::new(format, AttachmentType::Texture));
        match depth_format {
            Some(d) => r.push(FramebufferAttachmentCreateInfo::new(d, AttachmentType::Texture)),
            None => {},
        }
        assert(r@ =~= temporary_infos(format, depth_format));
        r
    }

    pub fn entries(&self) -> (r: &Vec<PoolEntry>)
        ensures
            r@ == self@.entries,
    {
        &self.entries
    }

    pub fn current_frame(&self) -> (r: u64)
        ensures
            r == self@.current_frame,
    {
        self.current_frame
    }

    pub fn keepalive_frames(&self) -> (r: u8)
        ensures
            r == self@.keepalive_frames,
    {
        self.keepalive_frames
    }

    /// Whether a framebuffer with this handle is pooled.
    pub fn contains_handle(&self, handle: u64) -> (r: bool)
        ensures
            r == holds_handle(self@.entries, handle),
    {
        let mut i: usize = 0;
        while i < self.entries.len()
            invariant
                i <= self.entries.len(),
                forall|j: int| 0 <= j < i ==> (#[trigger] self.entries@[j]).handle != handle,
            decreases self.entries.len() - i,
        {
            if self.entries[i].handle == handle {
                return true;
            }
            i += 1;
        }
        false
    }

    /// Hands out a pooled framebuffer for the request: the first free one of
    /// the same formats and size, which becomes handed out. `None` when no
    /// pooled framebuffer fits; the host then creates one and registers it
    /// with `insert_temporary`.
    pub fn get_temporary(
        &mut self,
        size: UVec2,
        format: SizedTextureFormat,
        depth_format: Option<SizedTextureFormat>,
    ) -> (r: Option<u64>)
        requires
            old(self)@.wf(),
        ensures
            final(self)@.wf(),
            final(self)@.keepalive_frames == old(self)@.keepalive_frames,
            final(self)@.current_frame == old(self)@.current_frame,
            match r {
                Some(h) => exists|i: int|
                    is_first_serving(old(self)@.entries, pool_key(format, depth_format), size, i)
                        && h == old(self)@.entries[i].handle && final(self)@.entries == old(self)@.entries.update(
                        i,
                        PoolEntry { in_use: true, ..old(self)@.entries[i] },
                    ),
                None => final(self)@.entries == old(self)@.entries && forall|j: int|
                    0 <= j < old(self)@.entries.len() ==> !serves(
                        #[trigger] old(self)@.entries[j],
                        pool_key(format, depth_format),
                        size,
                    ),
            },
    {
        let key = Self::framebuffer_key(format, depth_format);
        let mut i: usize = 0;
        while i < self.entries.len()
            invariant
                i <= self.entries.len(),
                self.entries@ == old(self)@.entries,
                self.keepalive_frames == old(self)@.keepalive_frames,
                self.current_frame == old(self)@.current_frame,
                key == pool_key(format, depth_format),
                old(self)@.wf(),
                forall|j: int| 0 <= j < i ==> !serves(#[trigger] self.entries@[j], key, size),
            decreases self.entries.len() - i,
        {
            let e = self.entries[i];
            if e.key == key && !e.in_use && e.size == size {
                let handle = e.handle;
                self.entries.set(i, PoolEntry { in_use: true, ..e });
                proof {
                    assert(is_first_serving(old(self)@.entries, key, size, i as int));
                    let o = old(self)@.entries;
                    let n = self.entries@;
                    assert forall|j: int| 0 <= j < n.len() implies #[trigger] n[j].handle == o[j].handle
                        && n[j].last_used == o[j].last_used by {}
                    assert forall|j: int, k: int| 0 <= j < n.len() && 0 <= k < n.len() && j != k
                        implies (#[trigger] n[j]).handle != (#[trigger] n[k]).handle by {
                        assert(o[j].handle != o[k].handle);
                    }
                    assert forall|k: int| 0 <= k < n.len() implies (#[trigger] n[k]).last_used <= self.current_frame by {
                        assert(o[k].last_used <= self.current_frame);
                    }
                }
                return Some(handle);
            }
            i += 1;
        }
        None
    }

    /// Registers a framebuffer the host created for a request that no pooled
    /// framebuffer could serve; it is handed out and dated the current frame.
    pub fn insert_temporary(
        &mut self,
        size: UVec2,
        format: SizedTextureFormat,
        depth_format: Option<SizedTextureFormat>,
        handle: u64,
    )
        requires
            old(self)@.wf(),
            !holds_handle(old(self)@.entries, handle),
        ensures
            final(self)@.wf(),
            final(self)@.keepalive_frames == old(self)@.keepalive_frames,
            final(self)@.current_frame == old(self)@.current_frame,
            final(self)@.entries == old(self)@.entries.push(
                PoolEntry {
                    key: pool_key(format, depth_format),
                    size,
                    last_used: old(self)@.current_frame,
                    in_use: true,
                    handle,
                },
            ),
    {
        let key = Self::framebuffer_key(format, depth_format);
        self.entries.push(PoolEntry { key, size, last_used: self.current_frame, in_use: true, handle });
        proof {
            let s = self.entries@;
            assert forall|j: int, k: int|
                0 <= j < s.len() && 0 <= k < s.len() && j != k implies (#[trigger] s[j]).handle
                != (#[trigger] s[k]).handle by {
                if j == s.len() - 1 {
                    assert(old(self)@.entries[k] == s[k]);
                } else if k == s.len() - 1 {
                    assert(old(self)@.entries[j] == s[j]);
                } else {
                    assert(old(self)@.entries[j] == s[j]);
                    assert(old(self)@.entries[k] == s[k]);
                }
            }
        }
    }

    /// Ends a frame: every handed-out framebuffer whose handle is in
    /// `released` (nobody but the pool holds it any more) becomes free and
    /// dated the current frame; free framebuffers unused for
    /// `keepalive_frames` frames are discarded and their handles returned;
    /// the frame counter advances.
    pub fn collect(&mut self, released: &Vec<u64>) -> (dropped: Vec<u64>)
        requires
            old(self)@.wf(),
            old(self)@.current_frame < u64::MAX,
        ensures
            final(self)@.wf(),
            final(self)@.keepalive_frames == old(self)@.keepalive_frames,
            final(self)@.current_frame == old(self)@.current_frame + 1,
            final(self)@.entries == collected(
                old(self)@.entries,
                released@,
                old(self)@.current_frame,
                old(self)@.keepalive_frames,
            ),
            dropped@ == discarded(
                old(self)@.entries,
                released@,
                old(self)@.current_frame,
                old(self)@.keepalive_frames,
            ),
    {
        let now = self.current_frame;
        let keepalive = self.keepalive_frames;
        let ghost s = self.entries@;
        let mut kept_entries: Vec<PoolEntry> = Vec::new();
        let mut dropped: Vec<u64> = Vec::new();
        let mut i: usize = 0;
        while i < self.entries.len()
            invariant
                i <= s.len(),
                self.entries@ == s,
                s == old(self)@.entries,
                now == old(self)@.current_frame,
                keepalive == old(self)@.keepalive_frames,
                dated_by(s, now),
                kept_entries@ == collected(s.take(i as int), released@, now, keepalive),
                dropped@ == discarded(s.take(i as int), released@, now, keepalive),
            decreases s.len() - i,
        {
            let e = self.entries[i];
            assert(e.last_used <= now);
            assert(s.take(i + 1).drop_last() == s.take(i as int));
            assert(s.take(i + 1).last() == e);
            let e2 = if e.in_use && contains_u64(released, e.handle) {
                PoolEntry { in_use: false, last_used: now, ..e }
            } else {
                e
            };
            if e2.in_use || now - e2.last_used < keepalive as u64 {
                kept_entries.push(e2);
            } else {
                dropped.push(e2.handle);
            }
            i += 1;
        }
        assert(s.take(s.len() as int) == s);
        proof {
            lemma_collected_wf(s, released@, now, keepalive);
        }
        self.entries = kept_entries;
        self.current_frame = now + 1;
        dropped
    }
}

/// Every entry that survives a collection is one of the entries before it,
/// possibly freed and re-dated the collection's frame, and survivors keep
/// their relative order.
proof fn lemma_collected_members(s: Seq<PoolEntry>, released: Seq<u64>, now: u64, keepalive: u8)
    ensures
        collected(s, released, now, keepalive).len() <= s.len(),
        forall|k: int|
            0 <= k < collected(s, released, now, keepalive).len() ==> exists|j: int|
                0 <= j < s.len() && #[trigger] collected(s, released, now, keepalive)[k] == after_release(
                    s[j],
                    released,
                    now,
                ),
        forall|k1: int, k2: int|
            0 <= k1 < k2 < collected(s, released, now, keepalive).len() ==> exists|j1: int, j2: int|
                0 <= j1 < j2 < s.len() && #[trigger] collected(s, released, now, keepalive)[k1] == after_release(
                    s[j1],
                    released,
                    now,
                ) && #[trigger] collected(s, released, now, keepalive)[k2] == after_release(
                    s[j2],
                    released,
                    now,
                ),
    decreases s.len(),
{
    if s.len() > 0 {
        let p = s.drop_last();
        lemma_collected_members(p, released, now, keepalive);
        let c = collected(s, released, now, keepalive);
        let cp = collected(p, released, now, keepalive);
        assert forall|k: int| 0 <= k < c.len() implies exists|j: int|
            0 <= j < s.len() && #[trigger] c[k] == after_release(s[j], released, now) by {
            if k < cp.len() {
                let j = choose|j: int| 0 <= j < p.len() && #[trigger] cp[k] == after_release(p[j], released, now);
                assert(s[j] == p[j]);
            } else {
                assert(c[k] == after_release(s[s.len() - 1], released, now));
            }
        }
        assert forall|k1: int, k2: int| 0 <= k1 < k2 < c.len() implies exists|j1: int, j2: int|
            0 <= j1 < j2 < s.len() && #[trigger] c[k1] == after_release(s[j1], released, now)
                && #[trigger] c[k2] == after_release(s[j2], released, now) by {
            if k2 < cp.len() {
                let (j1, j2) = choose|j1: int, j2: int|
                    0 <= j1 < j2 < p.len() && #[trigger] cp[k1] == after_release(p[j1], released, now)
                        && #[trigger] cp[k2] == after_release(p[j2], released, now);
                assert(s[j1] == p[j1]);
                assert(s[j2] == p[j2]);
            } else {
                let j1 = choose|j: int| 0 <= j < p.len() && #[trigger] cp[k1] == after_release(p[j], released, now);
                assert(s[j1] == p[j1]);
                assert(c[k2] == after_release(s[s.len() - 1], released, now));
            }
        }
    }
}

/// A collection keeps the pool well formed for the next frame.
proof fn lemma_collected_wf(s: Seq<PoolEntry>, released: Seq<u64>, now: u64, keepalive: u8)
    requires
        dated_by(s, now),
        handles_distinct(s),
        now < u64::MAX,
    ensures
        dated_by(collected(s, released, now, keepalive), (now + 1) as u64),
        handles_distinct(collected(s, released, now, keepalive)),
{
    lemma_collected_members(s, released, now, keepalive);
    let c = collected(s, released, now, keepalive);
    assert forall|k: int| 0 <= k < c.len() implies (#[trigger] c[k]).last_used <= now + 1 by {
        let j = choose|j: int| 0 <= j < s.len() && #[trigger] c[k] == after_release(s[j], released, now);
        assert(s[j].last_used <= now);
    }
    assert forall|k1: int, k2: int|
        0 <= k1 < c.len() && 0 <= k2 < c.len() && k1 != k2 implies (#[trigger] c[k1]).handle
        != (#[trigger] c[k2]).handle by {
        if k1 < k2 {
            let (j1, j2) = choose|j1: int, j2: int|
                0 <= j1 < j2 < s.len() && #[trigger] c[k1] == after_release(s[j1], released, now)
                    && #[trigger] c[k2] == after_release(s[j2], released, now);
            assert(s[j1].handle != s[j2].handle);
        } else {
            let (j1, j2) = choose|j1: int, j2: int|
                0 <= j1 < j2 < s.len() && #[trigger] c[k2] == after_release(s[j1], released, now)
                    && #[trigger] c[k1] == after_release(s[j2], released, now);
            assert(s[j1].handle != s[j2].handle);
        }
    }
}

/// A collection never discards a framebuffer that is still handed out: an
/// entry in use whose handle was not released survives unchanged.
pub proof fn lemma_collect_keeps_handed_out(
    s: Seq<PoolEntry>,
    released: Seq<u64>,
    now: u64,
    keepalive: u8,
    k: int,
)
    requires
        0 <= k < s.len(),
        s[k].in_use,
        !released.contains(s[k].handle),
    ensures
        collected(s, released, now, keepalive).contains(s[k]),
    decreases s.len(),
{
    let p = s.drop_last();
    if k < s.len() - 1 {
        assert(p[k] == s[k]);
        lemma_collect_keeps_handed_out(p, released, now, keepalive, k);
        let c = collected(p, released, now, keepalive);
        let w = choose|w: int| 0 <= w < c.len() && c[w] == s[k];
        let c2 = collected(s, released, now, keepalive);
        assert(c2[w] == s[k]);
    } else {
        let c2 = collected(s, released, now, keepalive);
        assert(c2[c2.len() - 1] == s[k]);
    }
}

/// A released framebuffer serves the next request for its formats and size:
/// with a keep-alive of at least one frame, after the collection some pooled
/// framebuffer is free for that key and size.
pub proof fn lemma_released_is_reusable(
    s: Seq<PoolEntry>,
    released: Seq<u64>,
    now: u64,
    keepalive: u8,
    k: int,
)
    requires
        0 <= k < s.len(),
        s[k].in_use,
        released.contains(s[k].handle),
        keepalive > 0,
    ensures
        exists|j: int|
            0 <= j < collected(s, released, now, keepalive).len() && serves(
                #[trigger] collected(s, released, now, keepalive)[j],
                s[k].key,
                s[k].size,
            ),
    decreases s.len(),
{
    let p = s.drop_last();
    if k < s.len() - 1 {
        assert(p[k] == s[k]);
        lemma_released_is_reusable(p, released, now, keepalive, k);
        let c = collected(p, released, now, keepalive);
        let w = choose|w: int| 0 <= w < c.len() && serves(#[trigger] c[w], s[k].key, s[k].size);
        let c2 = collected(s, released, now, keepalive);
        assert(c2[w] == c[w]);
    } else {
        let c2 = collected(s, released, now, keepalive);
        assert(serves(c2[c2.len() - 1], s[k].key, s[k].size));
    }
}

/// After a collection every pooled framebuffer is handed out or was last
/// used fewer than `keepalive` frames ago.
pub proof fn lemma_collected_are_fresh(s: Seq<PoolEntry>, released: Seq<u64>, now: u64, keepalive: u8)
    ensures
        forall|j: int|
            0 <= j < collected(s, released, now, keepalive).len() ==> kept(
                #[trigger] collected(s, released, now, keepalive)[j],
                now,
                keepalive,
            ),
    decreases s.len(),
{
    if s.len() > 0 {
        let p = s.drop_last();
        lemma_collected_are_fresh(p, released, now, keepalive);
        let c = collected(s, released, now, keepalive);
        let cp = collected(p, released, now, keepalive);
        assert forall|j: int| 0 <= j < c.len() implies kept(#[trigger] c[j], now, keepalive) by {
            if j < cp.len() {
                assert(c[j] == cp[j]);
            }
        }
    }
}

/// A collection loses nothing: every pooled framebuffer is either kept or
/// its handle is returned for destruction.
pub proof fn lemma_collect_accounts_for_all(s: Seq<PoolEntry>, released: Seq<u64>, now: u64, keepalive: u8)
    ensures
        collected(s, released, now, keepalive).len() + discarded(s, released, now, keepalive).len() == s.len(),
    decreases s.len(),
{
    if s.len() > 0 {
        lemma_collect_accounts_for_all(s.drop_last(), released, now, keepalive);
    }
}

/// Colour counts grow along the attachments, by one at each colour format.
proof fn lemma_color_count_prefix(s: Seq<FramebufferAttachmentCreateInfo>, i: int, j: int)
    requires
        0 <= i <= j <= s.len(),
    ensures
        color_count(s.take(i)) <= color_count(s.take(j)),
        i < j && depth_stencil_bind_point(s[i].format) is None ==> color_count(s.take(i)) < color_count(
            s.take(j),
        ),
    decreases j - i,
{
    if i < j {
        lemma_color_count_prefix(s, i, j - 1);
        assert(s.take(j).drop_last() == s.take(j - 1));
        if j - 1 == i {
            assert(s.take(j).last() == s[i]);
        }
    }
}

/// Every colour attachment is drawn to: its attachment point is the draw
/// buffer at its own draw buffer index, and different colour attachments
/// have different indices, increasing in binding order.
pub proof fn lemma_color_attachments_are_draw_buffers(all: Seq<FramebufferAttachmentCreateInfo>, k1: int, k2: int)
    requires
        0 <= k1 < k2 < all.len(),
        depth_stencil_bind_point(all[k1].format) is None,
        depth_stencil_bind_point(all[k2].format) is None,
        attachment_count_fits(all.len() as int),
    ensures
        ({
            let c1 = color_count(all.take(k1));
            let c2 = color_count(all.take(k2));
            let outputs = output_locations_for(color_count(all));
            &&& c1 < c2 < color_count(all)
            &&& bind_point_at(all, k1) == AttachmentBindPoint::Color(outputs[c1 as int], c1 as i32)
            &&& bind_point_at(all, k2) == AttachmentBindPoint::Color(outputs[c2 as int], c2 as i32)
        }),
{
    lemma_color_count_prefix(all, k1, k2);
    lemma_color_count_prefix(all, k2, all.len() as int);
    lemma_color_count_le(all);
    assert(all.take(all.len() as int) == all);
}

} // verus!
