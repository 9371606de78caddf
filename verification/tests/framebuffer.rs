use pbs_engine::framebuffer::{
    is_depth_stencil_attachment, layout_attachments, AttachmentBindPoint, AttachmentType, ClearCommand,
    Framebuffer, FramebufferAttachmentCreateInfo, FramebufferError, TextureFilter,
};
use pbs_engine::math::UVec2;
use pbs_engine::texture::SizedTextureFormat;
use pbs_engine::Msaa;

fn info(format: SizedTextureFormat, t: AttachmentType) -> FramebufferAttachmentCreateInfo {
    FramebufferAttachmentCreateInfo::new(format, t)
}

fn scene_infos() -> Vec<FramebufferAttachmentCreateInfo> {
    vec![
        info(SizedTextureFormat::Rgba16f, AttachmentType::Texture),
        info(SizedTextureFormat::Rgba16f, AttachmentType::Texture),
        info(SizedTextureFormat::Depth24Stencil8, AttachmentType::Renderbuffer),
    ]
}

#[test]
fn depth_and_stencil_formats_have_fixed_bind_points() {
    for f in [
        SizedTextureFormat::Depth16,
        SizedTextureFormat::Depth24,
        SizedTextureFormat::Depth32,
        SizedTextureFormat::Depth32f,
    ] {
        assert_eq!(
            is_depth_stencil_attachment(f),
            Some(AttachmentBindPoint::Depth(gl::DEPTH_ATTACHMENT))
        );
    }
    for f in [SizedTextureFormat::Depth24Stencil8, SizedTextureFormat::Depth32fStencil8] {
        assert_eq!(
            is_depth_stencil_attachment(f),
            Some(AttachmentBindPoint::DepthStencil(gl::DEPTH_STENCIL_ATTACHMENT))
        );
    }
    assert_eq!(
        Framebuffer::is_depth_stencil_attachment(SizedTextureFormat::StencilIndex8),
        Some(AttachmentBindPoint::Stencil(gl::STENCIL_ATTACHMENT))
    );
    assert_eq!(is_depth_stencil_attachment(SizedTextureFormat::Rgba8), None);
    assert_eq!(is_depth_stencil_attachment(SizedTextureFormat::Rgb32f), None);
}

#[test]
fn layout_binds_textures_before_renderbuffers() {
    let infos = vec![
        info(SizedTextureFormat::Rgba8, AttachmentType::Renderbuffer),
        info(SizedTextureFormat::Depth32f, AttachmentType::Texture),
        info(SizedTextureFormat::Rg16f, AttachmentType::Texture),
        info(SizedTextureFormat::R8, AttachmentType::Undefined),
        info(SizedTextureFormat::StencilIndex8, AttachmentType::Renderbuffer),
    ];
    let l = layout_attachments(&infos);
    assert_eq!(l.texture_infos, vec![infos[1], infos[2]]);
    assert_eq!(l.renderbuffer_infos, vec![infos[0], infos[4]]);
    assert_eq!(
        l.texture_bind_points,
        vec![
            AttachmentBindPoint::Depth(gl::DEPTH_ATTACHMENT),
            AttachmentBindPoint::Color(gl::COLOR_ATTACHMENT0, 0),
        ]
    );
    assert_eq!(
        l.renderbuffer_bind_points,
        vec![
            AttachmentBindPoint::Color(gl::COLOR_ATTACHMENT0 + 1, 1),
            AttachmentBindPoint::Stencil(gl::STENCIL_ATTACHMENT),
        ]
    );
    assert_eq!(l.output_locations, vec![gl::COLOR_ATTACHMENT0, gl::COLOR_ATTACHMENT1]);
    assert!(l.has_depth);
}

#[test]
fn layout_without_depth() {
    let infos = vec![info(SizedTextureFormat::Rgba16f, AttachmentType::Texture)];
    let l = layout_attachments(&infos);
    assert!(!l.has_depth);
    assert_eq!(l.output_locations, vec![gl::COLOR_ATTACHMENT0]);
    let empty = layout_attachments(&vec![]);
    assert!(empty.output_locations.is_empty());
    assert!(!empty.has_depth);
}

#[test]
fn complete_framebuffer_records_attachments() {
    let infos = scene_infos();
    let fb = Framebuffer::new(
        7,
        UVec2::new(640, 480),
        Msaa::X4,
        &infos,
        &vec![11, 12],
        &vec![21],
        gl::FRAMEBUFFER_COMPLETE,
    )
    .unwrap();
    assert_eq!(fb.id(), 7);
    assert_eq!(fb.size(), UVec2::new(640, 480));
    assert_eq!(fb.samples(), 4);
    assert!(fb.has_depth());
    assert_eq!(fb.texture_attachments().len(), 2);
    let a0 = fb.texture_attachment(0);
    assert_eq!(a0.id(), 11);
    assert_eq!(a0.format(), SizedTextureFormat::Rgba16f);
    assert_eq!(a0.attachment_type(), AttachmentType::Texture);
    assert!(!a0.is_depth_stencil());
    assert_eq!(fb.texture_attachment(1).attachment_bind_point, AttachmentBindPoint::Color(gl::COLOR_ATTACHMENT1, 1));
    let rb = fb.renderbuffer_attachments()[0];
    assert_eq!(rb.id(), 21);
    assert!(rb.is_depth_stencil());
    assert_eq!(fb.output_locations(), &vec![gl::COLOR_ATTACHMENT0, gl::COLOR_ATTACHMENT1]);
    assert_eq!(fb.color_attachment_count(), 2);
    assert_eq!(
        fb.clear_commands(),
        vec![ClearCommand::Color(0), ClearCommand::Color(1), ClearCommand::DepthStencil]
    );
    assert_eq!(fb.invalidation_targets(), vec![gl::DEPTH_STENCIL_ATTACHMENT]);
}

#[test]
fn incomplete_framebuffer_is_an_error() {
    let infos = scene_infos();
    let cases = [
        (gl::FRAMEBUFFER_UNDEFINED, FramebufferError::Unidentified),
        (gl::FRAMEBUFFER_INCOMPLETE_ATTACHMENT, FramebufferError::IncompleteAttachment),
        (gl::FRAMEBUFFER_INCOMPLETE_MISSING_ATTACHMENT, FramebufferError::IncompleteMissingAttachment),
        (gl::FRAMEBUFFER_INCOMPLETE_DRAW_BUFFER, FramebufferError::IncompleteDrawBuffer),
    ];
    for (status, err) in cases {
        let r = Framebuffer::new(1, UVec2::new(1, 1), Msaa::Off, &infos, &vec![1, 2], &vec![3], status);
        assert_eq!(r.err(), Some(err));
        assert_eq!(Framebuffer::check_status(status), Err(err));
    }
    assert_eq!(Framebuffer::check_status(gl::FRAMEBUFFER_COMPLETE), Ok(()));
    assert_eq!(Framebuffer::check_status(gl::FRAMEBUFFER_UNSUPPORTED), Ok(()));
}

#[test]
fn framebuffer_error_messages() {
    assert_eq!(FramebufferError::Unidentified.message(), "Undefined framebuffer.");
    assert_eq!(FramebufferError::IncompleteAttachment.message(), "Incomplete framebuffer attachment");
    assert_eq!(
        FramebufferError::IncompleteMissingAttachment.message(),
        "Incomplete framebuffer. Add at least one attachment to the framebuffer."
    );
    assert_eq!(
        FramebufferError::IncompleteDrawBuffer.message(),
        "Incomplete draw buffer. Check that all attachments enabled exist in the framebuffer."
    );
    assert_eq!(FramebufferError::Unknown.message(), "Unknown framebuffer error.");
}

#[test]
fn msaa_off_framebuffer_has_one_sample() {
    let infos = vec![info(SizedTextureFormat::Rgba8, AttachmentType::Renderbuffer)];
    let fb = Framebuffer::new(2, UVec2::new(4, 4), Msaa::Off, &infos, &vec![], &vec![5], gl::FRAMEBUFFER_COMPLETE)
        .unwrap();
    assert_eq!(fb.samples(), 1);
    assert!(!fb.has_depth());
    assert_eq!(fb.invalidation_targets(), vec![gl::COLOR_ATTACHMENT0]);
    assert_eq!(fb.clear_commands(), vec![ClearCommand::Color(0)]);
}

#[test]
fn blit_copies_each_color_buffer() {
    let infos = scene_infos();
    let a = Framebuffer::new(1, UVec2::new(8, 8), Msaa::Off, &infos, &vec![1, 2], &vec![3], gl::FRAMEBUFFER_COMPLETE)
        .unwrap();
    let b = Framebuffer::new(2, UVec2::new(4, 4), Msaa::Off, &infos, &vec![4, 5], &vec![6], gl::FRAMEBUFFER_COMPLETE)
        .unwrap();
    assert_eq!(
        Framebuffer::blit_color_buffers(&a, &b),
        vec![gl::COLOR_ATTACHMENT0, gl::COLOR_ATTACHMENT1]
    );
}

#[test]
fn texture_filter_enums() {
    assert_eq!(TextureFilter::Nearest.gl_enum(), gl::NEAREST);
    assert_eq!(TextureFilter::Linear.gl_enum(), gl::LINEAR);
}
