use atari_display::{player_size, Charset, GTIAColors, LineData};

fn pattern(len: usize, seed: usize) -> Vec<u8> {
    (0..len).map(|i| ((i * 7 + seed) % 256) as u8).collect()
}

#[test]
fn charset_new_keeps_every_byte_in_order() {
    let src = pattern(1024, 3);
    let charset = Charset::new(&src);
    assert_eq!(charset.data.to_vec(), src);
    assert_eq!(charset.data[0], 3);
    assert_eq!(charset.data[1023], ((1023 * 7 + 3) % 256) as u8);
}

#[test]
fn line_data_new_keeps_data_and_players_apart() {
    let src = pattern(48, 1);
    let p0 = vec![0x10u8; 16];
    let p1 = pattern(16, 100);
    let p2 = vec![0xffu8; 16];
    let p3 = pattern(16, 200);
    let line = LineData::new(&src, &p0, &p1, &p2, &p3);
    assert_eq!(line.data.to_vec(), src);
    assert_eq!(line.player0.to_vec(), p0);
    assert_eq!(line.player1.to_vec(), p1);
    assert_eq!(line.player2.to_vec(), p2);
    assert_eq!(line.player3.to_vec(), p3);
}

#[test]
fn player_size_follows_the_two_low_bits() {
    assert_eq!(player_size(0), 16);
    assert_eq!(player_size(1), 32);
    assert_eq!(player_size(2), 16);
    assert_eq!(player_size(3), 64);
    assert_eq!(player_size(0x04), 16);
    assert_eq!(player_size(0xfd), 32);
    assert_eq!(player_size(0xfe), 16);
    assert_eq!(player_size(0xff), 64);
}

#[test]
fn player_size_ignores_the_high_bits() {
    for sizep in 0..=255u8 {
        assert_eq!(player_size(sizep), player_size(sizep & 3));
        let size = player_size(sizep);
        assert!(size == 16 || size == 32 || size == 64);
    }
}

#[test]
fn gtia_colors_new_builds_the_three_colour_rows() {
    let colors = GTIAColors::new(
        0x00, 0x10, 0x20, 0x30, 0x40, 0x50, 0x60, 0x70, 0x80, 48, 80, 120, 200, 0, 1, 2, 3, 0x11,
    );
    assert_eq!(colors.regs[0], [0x00, 0x10, 0x20, 0x30]);
    assert_eq!(colors.regs[1], [0x00, 0x10, 0x20, 0x40]);
    assert_eq!(colors.regs[2], [0x50, 0x60, 0x70, 0x80]);
    assert_eq!(colors.player_pos, [48, 80, 120, 200]);
    assert_eq!(colors.player_size, [16, 32, 16, 64]);
    assert_eq!(colors.prior, 0x11);
}

#[test]
fn gtia_colors_new_keeps_full_byte_values() {
    let colors = GTIAColors::new(
        0xff, 0xfe, 0xfd, 0xfc, 0xfb, 0xfa, 0xf9, 0xf8, 0xf7, 0xff, 0, 1, 0xfe, 0xff, 0xfc, 0xfd,
        0xfe, 0xff,
    );
    assert_eq!(colors.regs[0], [0xff, 0xfe, 0xfd, 0xfc]);
    assert_eq!(colors.regs[1], [0xff, 0xfe, 0xfd, 0xfb]);
    assert_eq!(colors.regs[2], [0xfa, 0xf9, 0xf8, 0xf7]);
    assert_eq!(colors.player_pos, [0xff, 0, 1, 0xfe]);
    assert_eq!(colors.player_size, [64, 16, 32, 16]);
    assert_eq!(colors.prior, 0xff);
}

#[test]
fn gtia_colors_default_is_all_zero() {
    let colors = GTIAColors::default();
    assert_eq!(colors.regs, [[0; 4]; 3]);
    assert_eq!(colors.player_pos, [0; 4]);
    assert_eq!(colors.player_size, [0; 4]);
    assert_eq!(colors.prior, 0);
}
