use egui_d3d9::frame::{DrawPlan, FrameStart, GuardPhase, RenderState, StateGuard, TextureSource};
use egui_d3d9::mesh::{Buffers, TextureId, DEFAULT_CAPACITY};
use egui_d3d9::texman::{TextureColor, TextureImage};

fn state(reactive: bool) -> RenderState<u8, u8, u8, u32> {
    RenderState::new(reactive, Buffers::create_buffers(1, 2, DEFAULT_CAPACITY, DEFAULT_CAPACITY))
}

fn img() -> TextureImage {
    TextureImage::new(1, 1, vec![TextureColor::from_rgba(1, 2, 3, 4)]).unwrap()
}

#[test]
fn inoperative_device_skips_frame() {
    let s = state(false);
    assert_eq!(s.begin_frame(false), FrameStart::Skip);
    assert_eq!(s.begin_frame(true), FrameStart::Run { reallocate: false });
}

#[test]
fn zero_shapes_draw_nothing() {
    for reactive in [false, true] {
        let s = state(reactive);
        for repaint in [false, true] {
            for forced in [false, true] {
                assert_eq!(s.plan_draw(false, repaint, forced), DrawPlan::Nothing);
            }
        }
    }
}

#[test]
fn reactive_mode_redraws_without_repaint_request() {
    assert_eq!(state(true).plan_draw(true, false, false), DrawPlan::Redraw);
    assert_eq!(state(true).plan_draw(true, true, false), DrawPlan::Retessellate);
    assert_eq!(state(false).plan_draw(true, false, false), DrawPlan::Retessellate);
}

#[test]
fn device_lost_then_present_reallocates_and_repaints() {
    let mut s = state(true);
    s.tex_man.insert_texture(1, 7, img());
    s.pre_reset();
    assert!(s.should_reset);
    assert!(s.buffers.vtx.is_none() && s.buffers.idx.is_none());
    assert_eq!(s.buffers.vtx_capacity, 0);
    assert_eq!(s.tex_man.get_by_id(1), None);
    assert!(s.resolve_texture(TextureId::Managed(1)).is_none());
    let start = s.begin_frame(true);
    assert_eq!(start, FrameStart::Run { reallocate: true });
    s.reallocate(5, 6, vec![70]);
    assert!(!s.should_reset);
    assert_eq!(s.buffers.vtx, Some(5));
    assert_eq!(s.buffers.vtx_capacity, DEFAULT_CAPACITY);
    assert_eq!(s.tex_man.get_by_id(1), Some(&70));
    assert_eq!(s.plan_draw(true, false, true), DrawPlan::Retessellate);
}

#[test]
fn textures_resolve_by_kind() {
    let mut s = state(false);
    s.tex_man.insert_texture(1, 7, img());
    assert!(matches!(s.resolve_texture(TextureId::Managed(1)), Some(TextureSource::Managed(&7))));
    assert!(s.resolve_texture(TextureId::Managed(2)).is_none());
    assert!(matches!(s.resolve_texture(TextureId::User(2)), Some(TextureSource::User(2))));
}

#[test]
fn guard_is_not_reentrant() {
    let mut g = StateGuard::new();
    assert!(g.arm());
    assert!(!g.arm());
    assert_eq!(g.phase, GuardPhase::Armed);
    assert!(g.release());
    assert!(!g.release());
    assert_eq!(g.phase, GuardPhase::Unarmed);
}
