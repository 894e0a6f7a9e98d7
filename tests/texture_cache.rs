use egui_d3d9::texman::{SetAction, TextureColor, TextureImage, TextureManager};

fn px(v: u8) -> TextureColor {
    TextureColor::from_rgba(v, v, v, 255)
}

fn image(w: usize, h: usize, base: u8) -> TextureImage {
    let pixels: Vec<TextureColor> = (0..w * h).map(|i| px(base + i as u8)).collect();
    TextureImage::new(w, h, pixels).unwrap()
}

#[test]
fn from_rgba_reorders_channels() {
    let c = TextureColor::from_rgba(1, 2, 3, 4);
    assert_eq!((c.b, c.g, c.r, c.a), (3, 2, 1, 4));
}

#[test]
fn image_rejects_wrong_texel_count() {
    assert!(TextureImage::new(2, 2, vec![px(0); 3]).is_none());
    assert!(TextureImage::new(2, 2, vec![px(0); 4]).is_some());
    assert!(TextureImage::new(usize::MAX, 2, vec![px(0); 4]).is_none());
}

#[test]
fn set_on_empty_cache_creates_texture() {
    let mut tm: TextureManager<u32> = TextureManager::new();
    assert_eq!(tm.plan_set(1, 2, 2, None), SetAction::Create);
    let img = image(2, 2, 10);
    let expected = img.pixels.clone();
    assert!(tm.insert_texture(1, 7, img).is_none());
    assert!(tm.contains(1));
    assert_eq!(tm.len(), 1);
    assert_eq!(tm.get_by_id(1), Some(&7));
    let e = tm.entry(0);
    assert_eq!((e.width, e.height), (2, 2));
    assert_eq!(e.pixels, expected);
    assert_eq!(e.handle(), Some(&7));
}

#[test]
fn plan_set_distinguishes_update_kinds() {
    let mut tm: TextureManager<u32> = TextureManager::new();
    tm.insert_texture(1, 7, image(4, 4, 0));
    assert_eq!(tm.plan_set(1, 4, 4, None), SetAction::UpdateWhole);
    assert_eq!(tm.plan_set(1, 8, 4, None), SetAction::Recreate);
    assert_eq!(tm.plan_set(1, 2, 2, Some((1, 1))), SetAction::Patch { x: 1, y: 1 });
    assert_eq!(tm.plan_set(2, 2, 2, Some((1, 1))), SetAction::Create);
}

#[test]
fn partial_set_patches_only_its_region() {
    let mut tm: TextureManager<u32> = TextureManager::new();
    tm.insert_texture(1, 7, image(4, 4, 0));
    let patch = TextureImage::new(2, 2, vec![px(100), px(101), px(102), px(103)]).unwrap();
    assert!(tm.patch_pixels(1, 1, 1, &patch));
    let e = tm.entry(0);
    assert_eq!(e.handle, Some(7));
    for row in 0..4usize {
        for col in 0..4usize {
            let got = e.pixels[row * 4 + col];
            if (1..=2).contains(&row) && (1..=2).contains(&col) {
                assert_eq!(got, px(100 + ((row - 1) * 2 + (col - 1)) as u8));
            } else {
                assert_eq!(got, px((row * 4 + col) as u8));
            }
        }
    }
}

#[test]
fn patch_outside_texture_is_refused() {
    let mut tm: TextureManager<u32> = TextureManager::new();
    tm.insert_texture(1, 7, image(4, 4, 0));
    let patch = image(2, 2, 50);
    assert!(!tm.patch_pixels(1, 3, 0, &patch));
    assert!(!tm.patch_pixels(2, 0, 0, &patch));
    assert_eq!(tm.entry(0).pixels, image(4, 4, 0).pixels);
}

#[test]
fn whole_update_keeps_handle_and_replaces_pixels() {
    let mut tm: TextureManager<u32> = TextureManager::new();
    tm.insert_texture(1, 7, image(2, 2, 0));
    let new = image(2, 2, 40);
    let expected = new.pixels.clone();
    assert!(tm.replace_pixels(1, new));
    assert_eq!(tm.entry(0).pixels, expected);
    assert_eq!(tm.get_by_id(1), Some(&7));
    assert!(!tm.replace_pixels(1, image(3, 1, 0)));
    assert_eq!(tm.entry(0).pixels, expected);
}

#[test]
fn recreate_hands_back_old_entry() {
    let mut tm: TextureManager<u32> = TextureManager::new();
    tm.insert_texture(1, 7, image(2, 2, 0));
    let old = tm.insert_texture(1, 8, image(3, 1, 0)).unwrap();
    assert_eq!(old.handle, Some(7));
    assert_eq!(tm.len(), 1);
    assert_eq!((tm.entry(0).width, tm.entry(0).height), (3, 1));
    assert_eq!(tm.get_by_id(1), Some(&8));
}

#[test]
fn set_then_free_releases_once() {
    let mut tm: TextureManager<u32> = TextureManager::new();
    tm.insert_texture(5, 9, image(2, 2, 0));
    tm.insert_texture(1, 7, image(2, 2, 0));
    let freed = tm.free(1).unwrap();
    assert_eq!(freed.handle, Some(7));
    assert!(!tm.contains(1));
    assert!(tm.free(1).is_none());
    assert!(tm.contains(5));
    assert_eq!(tm.get_by_id(1), None);
}

#[test]
fn free_deltas_skip_unknown_ids() {
    let mut tm: TextureManager<u32> = TextureManager::new();
    tm.insert_texture(1, 7, image(1, 1, 0));
    tm.insert_texture(2, 8, image(1, 1, 0));
    tm.insert_texture(3, 9, image(1, 1, 0));
    tm.process_free_deltas(&vec![3, 42, 1, 3]);
    assert_eq!(tm.len(), 1);
    assert!(tm.contains(2));
    assert_eq!(tm.get_by_id(2), Some(&8));
}

#[test]
fn device_reset_restores_identical_pixels() {
    let mut tm: TextureManager<u32> = TextureManager::new();
    let img = image(2, 2, 30);
    let expected = img.pixels.clone();
    tm.insert_texture(1, 7, img);
    tm.insert_texture(2, 8, image(1, 1, 0));
    tm.deallocate_textures();
    assert_eq!(tm.get_by_id(1), None);
    assert_eq!(tm.entry(0).pixels, expected);
    tm.reallocate_textures(vec![70, 80]);
    assert_eq!(tm.get_by_id(1), Some(&70));
    assert_eq!(tm.get_by_id(2), Some(&80));
    assert_eq!(tm.entry(0).pixels, expected);
}

#[test]
fn patch_fit_matches_patch_acceptance() {
    let mut tm: TextureManager<u32> = TextureManager::new();
    tm.insert_texture(1, 7, image(4, 4, 0));
    assert!(tm.patch_fits(1, 1, 1, 2, 2));
    assert!(tm.patch_fits(1, 2, 2, 2, 2));
    assert!(!tm.patch_fits(1, 3, 0, 2, 2));
    assert!(!tm.patch_fits(1, 0, 3, 2, 2));
    assert!(!tm.patch_fits(2, 0, 0, 1, 1));
    assert!(!tm.patch_fits(1, usize::MAX, 0, 2, 1));
}
