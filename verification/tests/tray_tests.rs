use cursor_trail::tray::{build_icon_rgba, TrayAction, ICON_SIZE};

#[test]
fn icon_is_a_disc() {
    let px = build_icon_rgba();
    assert_eq!(px.len(), ICON_SIZE * ICON_SIZE * 4);
    let at = |x: usize, y: usize| &px[(y * 32 + x) * 4..(y * 32 + x) * 4 + 4];
    assert_eq!(at(16, 16), &[120, 180, 255, 255]);
    assert_eq!(at(26, 16), &[120, 180, 255, 255]);
    assert_eq!(at(27, 16), &[0, 0, 0, 0]);
    assert_eq!(at(16, 6), &[120, 180, 255, 255]);
    assert_eq!(at(16, 5), &[0, 0, 0, 0]);
    assert_eq!(at(0, 0), &[0, 0, 0, 0]);
    assert_eq!(at(22, 24), &[120, 180, 255, 255]); // 36 + 64 = 100
    assert_eq!(at(23, 24), &[0, 0, 0, 0]); // 49 + 64 > 100
}

#[test]
fn icon_pixel_count() {
    let px = build_icon_rgba();
    let opaque = px.chunks(4).filter(|c| c[3] == 255).count();
    let mut expected = 0;
    for y in 0..32i32 {
        for x in 0..32i32 {
            if (x - 16) * (x - 16) + (y - 16) * (y - 16) <= 100 {
                expected += 1;
            }
        }
    }
    assert_eq!(opaque, expected);
    assert_eq!(opaque, 317);
}

#[test]
fn tray_actions_are_distinct() {
    let all = [TrayAction::OpenSettings, TrayAction::ToggleTrail, TrayAction::ToggleAvatar, TrayAction::Quit];
    for (i, a) in all.iter().enumerate() {
        for (j, b) in all.iter().enumerate() {
            assert_eq!(i == j, a == b);
        }
    }
}
