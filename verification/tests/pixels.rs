use kbot::pixels::{
    bgra_to_rgba, color_bucket_count, count_pixels, count_red_pixels, edge_count, hp_bar_scan, lock_search_rect, HpBarScan,
    PixelTest,
};

fn frame(w: u32, h: u32, red: &[(u32, u32)]) -> Vec<u8> {
    let mut v = vec![0u8; (w * h * 4) as usize];
    for &(x, y) in red {
        let k = ((y * w + x) * 4) as usize;
        v[k] = 200;
        v[k + 1] = 10;
        v[k + 2] = 20;
        v[k + 3] = 255;
    }
    v
}

#[test]
fn bgra_becomes_rgba() {
    let bgra = vec![1, 2, 3, 4, 5, 6, 7, 8, 9];
    assert_eq!(bgra_to_rgba(&bgra, 2), vec![3, 2, 1, 255, 7, 6, 5, 255]);
    assert_eq!(bgra_to_rgba(&bgra, 0), Vec::<u8>::new());
}

#[test]
fn red_pixels_are_counted_inside_the_clamped_rectangle() {
    let f = frame(4, 3, &[(0, 0), (1, 1), (3, 2), (2, 1)]);
    assert_eq!(count_red_pixels(&f, 4, 3, 0, 0, 4, 3), 4);
    assert_eq!(count_red_pixels(&f, 4, 3, 1, 1, 2, 1), 2);
    assert_eq!(count_red_pixels(&f, 4, 3, 3, 2, 10, 10), 1);
    assert_eq!(count_red_pixels(&f, 4, 3, 9, 9, 1, 1), 1);
    assert_eq!(count_red_pixels(&f, 4, 3, 0, 0, 0, 3), 0);
}

#[test]
fn pixel_thresholds() {
    let mut f = frame(2, 1, &[]);
    f[0] = 141;
    f[1] = 79;
    f[2] = 79;
    f[4] = 140;
    f[5] = 0;
    f[6] = 0;
    assert_eq!(count_red_pixels(&f, 2, 1, 0, 0, 2, 1), 1);
}

#[test]
fn lock_search_rectangle() {
    assert_eq!(lock_search_rect(Some((300, 20, 500, 90)), 800, 600), (300, 20, 200, 70));
    assert_eq!(lock_search_rect(Some((700, 20, 900, 90)), 800, 600), (700, 20, 100, 70));
    assert_eq!(lock_search_rect(None, 800, 600), (0, 0, 800, 150));
    assert_eq!(lock_search_rect(None, 800, 100), (0, 0, 800, 100));
}

fn set(f: &mut Vec<u8>, w: u32, x: u32, y: u32, c: (u8, u8, u8)) {
    let k = ((y * w + x) * 4) as usize;
    f[k] = c.0;
    f[k + 1] = c.1;
    f[k + 2] = c.2;
}

#[test]
fn metin_blue_pixels() {
    let mut f = vec![0u8; 3 * 2 * 4];
    set(&mut f, 3, 0, 0, (10, 100, 200));
    set(&mut f, 3, 1, 0, (80, 100, 200));
    set(&mut f, 3, 2, 1, (79, 149, 121));
    assert_eq!(count_pixels(&f, 3, 2, PixelTest::MetinBlue, 0, 0, 3, 2), 2);
    assert_eq!(count_pixels(&f, 3, 2, PixelTest::MetinBlue, 1, 0, 2, 1), 0);
}

#[test]
fn edges_are_counted_inside_the_border() {
    let w = 5;
    let h = 5;
    let mut f = vec![0u8; (w * h * 4) as usize];
    set(&mut f, w, 3, 2, (255, 255, 255));
    // (2,2) and (3,2) differ from their right neighbours, (3,1) from its lower one.
    assert_eq!(edge_count(&f, w, h, 0, 0, 5, 5), 3);
    assert_eq!(count_pixels(&f, w, h, PixelTest::Edge, 2, 2, 1, 1), 1);
    assert_eq!(edge_count(&f, w, h, 0, 0, 2, 5), 0);
}

#[test]
fn colour_buckets() {
    let mut f = vec![0u8; 2 * 2 * 4];
    set(&mut f, 2, 0, 0, (255, 0, 0));
    set(&mut f, 2, 1, 0, (200, 10, 20));
    set(&mut f, 2, 0, 1, (0, 0, 255));
    assert_eq!(color_bucket_count(&f, 2, 2, 0, 0, 2, 2), 3);
    assert_eq!(color_bucket_count(&f, 2, 2, 1, 1, 1, 1), 1);
    assert_eq!(color_bucket_count(&f, 2, 2, 0, 0, 0, 0), 0);
}

#[test]
fn health_bar_columns() {
    let (w, h) = (10u32, 4u32);
    let mut f = vec![0u8; (w * h * 4) as usize];
    for x in 0..6 {
        for y in 1..4 {
            set(&mut f, w, x, y, (200, 30, 30));
        }
    }
    for y in 1..4 {
        set(&mut f, w, 6, y, (100, 100, 100));
        set(&mut f, w, 7, y, (100, 100, 100));
    }
    // Column 6 is red in one of its three scan rows only.
    set(&mut f, w, 6, 1, (200, 30, 30));
    assert_eq!(
        hp_bar_scan(&f, w, h, 0, 0, 10, 4),
        HpBarScan { red_columns: 6, bar_columns: 8, last_red_column: 5, width: 10 }
    );
    assert_eq!(
        hp_bar_scan(&f, w, h, 2, 0, 50, 50),
        HpBarScan { red_columns: 4, bar_columns: 6, last_red_column: 3, width: 8 }
    );
    assert_eq!(
        hp_bar_scan(&f, w, h, 0, 0, 4, 4),
        HpBarScan { red_columns: 0, bar_columns: 0, last_red_column: 0, width: 4 }
    );
}

#[test]
fn health_bar_thresholds_and_two_row_bars() {
    let (w, h) = (5u32, 2u32);
    let mut f = vec![0u8; (w * h * 4) as usize];
    // Two rows high: the scan reads row 0 once and row 1 twice.
    set(&mut f, w, 0, 1, (101, 67, 67));
    set(&mut f, w, 1, 0, (200, 0, 0));
    set(&mut f, w, 2, 1, (100, 0, 0));
    set(&mut f, w, 3, 1, (101, 68, 0));
    set(&mut f, w, 4, 1, (30, 30, 30));
    set(&mut f, w, 4, 0, (30, 30, 29));
    assert_eq!(
        hp_bar_scan(&f, w, h, 0, 0, 5, 2),
        HpBarScan { red_columns: 1, bar_columns: 4, last_red_column: 0, width: 5 }
    );
}
