use pbs_engine::framebuffer::{AttachmentType, FramebufferAttachmentCreateInfo, PoolEntry, TemporaryFramebufferPool};
use pbs_engine::math::UVec2;
use pbs_engine::texture::SizedTextureFormat;

fn size(x: u32, y: u32) -> UVec2 {
    UVec2::new(x, y)
}

#[test]
fn key_is_sum_of_format_enumerants() {
    assert_eq!(TemporaryFramebufferPool::framebuffer_key(SizedTextureFormat::R8, None), gl::R8);
    assert_eq!(
        TemporaryFramebufferPool::framebuffer_key(
            SizedTextureFormat::Rgba16f,
            Some(SizedTextureFormat::Depth24)
        ),
        gl::RGBA16F + gl::DEPTH_COMPONENT24
    );
}

#[test]
fn empty_pool_cannot_serve() {
    let mut p = TemporaryFramebufferPool::new(3);
    assert_eq!(p.keepalive_frames(), 3);
    assert_eq!(p.current_frame(), 0);
    assert_eq!(p.get_temporary(size(4, 4), SizedTextureFormat::R8, None), None);
    assert!(p.entries().is_empty());
}

#[test]
fn handed_out_framebuffer_is_not_served_twice() {
    let mut p = TemporaryFramebufferPool::new(3);
    p.insert_temporary(size(4, 4), SizedTextureFormat::R8, None, 100);
    assert!(p.contains_handle(100));
    assert!(!p.contains_handle(101));
    assert_eq!(p.get_temporary(size(4, 4), SizedTextureFormat::R8, None), None);
    assert_eq!(
        p.entries()[0],
        PoolEntry { key: gl::R8, size: size(4, 4), last_used: 0, in_use: true, handle: 100 }
    );
}

#[test]
fn released_framebuffer_is_reused_for_same_request() {
    let mut p = TemporaryFramebufferPool::new(2);
    p.insert_temporary(size(4, 4), SizedTextureFormat::R8, None, 100);
    assert_eq!(p.collect(&vec![100]), vec![]);
    assert_eq!(p.current_frame(), 1);
    assert!(!p.entries()[0].in_use);
    assert_eq!(p.get_temporary(size(8, 8), SizedTextureFormat::R8, None), None);
    assert_eq!(
        p.get_temporary(size(4, 4), SizedTextureFormat::R8, Some(SizedTextureFormat::Depth16)),
        None
    );
    assert_eq!(p.get_temporary(size(4, 4), SizedTextureFormat::R8, None), Some(100));
    assert!(p.entries()[0].in_use);
}

#[test]
fn unreleased_framebuffer_survives_collection() {
    let mut p = TemporaryFramebufferPool::new(1);
    p.insert_temporary(size(4, 4), SizedTextureFormat::R8, None, 100);
    for _ in 0..5 {
        assert_eq!(p.collect(&vec![]), vec![]);
    }
    assert_eq!(p.entries().len(), 1);
    assert!(p.entries()[0].in_use);
}

#[test]
fn free_framebuffer_is_dropped_after_keepalive_frames() {
    let mut p = TemporaryFramebufferPool::new(2);
    p.insert_temporary(size(4, 4), SizedTextureFormat::R8, None, 100);
    p.insert_temporary(size(4, 4), SizedTextureFormat::Rg8, None, 200);
    // frame 0: 100 released, last used 0
    assert_eq!(p.collect(&vec![100]), vec![]);
    // frame 1: 1 - 0 < 2, kept
    assert_eq!(p.collect(&vec![]), vec![]);
    // frame 2: 2 - 0 == 2, dropped
    assert_eq!(p.collect(&vec![]), vec![100]);
    assert_eq!(p.entries().len(), 1);
    assert_eq!(p.entries()[0].handle, 200);
    assert_eq!(p.current_frame(), 3);
}

#[test]
fn zero_keepalive_drops_released_framebuffers_at_once() {
    let mut p = TemporaryFramebufferPool::new(0);
    p.insert_temporary(size(2, 2), SizedTextureFormat::R8, None, 7);
    assert_eq!(p.collect(&vec![7]), vec![7]);
    assert!(p.entries().is_empty());
}

#[test]
fn first_free_framebuffer_serves_in_insertion_order() {
    let mut p = TemporaryFramebufferPool::new(4);
    p.insert_temporary(size(4, 4), SizedTextureFormat::R8, None, 1);
    p.insert_temporary(size(4, 4), SizedTextureFormat::R8, None, 2);
    p.collect(&vec![2, 1]);
    assert_eq!(p.get_temporary(size(4, 4), SizedTextureFormat::R8, None), Some(1));
    assert_eq!(p.get_temporary(size(4, 4), SizedTextureFormat::R8, None), Some(2));
    assert_eq!(p.get_temporary(size(4, 4), SizedTextureFormat::R8, None), None);
}

#[test]
fn released_handles_not_in_use_are_ignored() {
    let mut p = TemporaryFramebufferPool::new(3);
    p.insert_temporary(size(4, 4), SizedTextureFormat::R8, None, 1);
    p.collect(&vec![1]);
    p.collect(&vec![1]);
    // still dated frame 0, not re-dated by the second release
    assert_eq!(p.entries()[0].last_used, 0);
}

#[test]
fn temporary_framebuffers_have_a_color_and_an_optional_depth_texture() {
    let with_depth = TemporaryFramebufferPool::temporary_attachment_infos(
        SizedTextureFormat::Rgba16f,
        Some(SizedTextureFormat::Depth24Stencil8),
    );
    assert_eq!(
        with_depth,
        vec![
            FramebufferAttachmentCreateInfo::new(SizedTextureFormat::Rgba16f, AttachmentType::Texture),
            FramebufferAttachmentCreateInfo::new(SizedTextureFormat::Depth24Stencil8, AttachmentType::Texture),
        ]
    );
    let color_only = TemporaryFramebufferPool::temporary_attachment_infos(SizedTextureFormat::R8, None);
    assert_eq!(color_only, vec![FramebufferAttachmentCreateInfo::new(SizedTextureFormat::R8, AttachmentType::Texture)]);
}
