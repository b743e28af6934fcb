use skycam::grid::{fit_dims, make_centered_grid, Grid};
use skycam::raster::RgbImage;

/// A generator of numbers that are spread over their range.
fn next(state: &mut u64) -> u64 {
    *state = state.wrapping_mul(6364136223846793005).wrapping_add(1442695040888963407);
    *state >> 33
}

fn numbered(width: u32, height: u32) -> RgbImage {
    let mut data = Vec::new();
    for y in 0..height {
        for x in 0..width {
            data.extend_from_slice(&[x as u8, y as u8, 7]);
        }
    }
    RgbImage { width, height, data }
}

fn check_fit(in_w: u32, in_h: u32, grid_w: u32, grid_h: u32) {
    if in_w <= grid_w || in_h <= grid_h {
        return;
    }
    let (w, h) = fit_dims(in_w, in_h, grid_w, grid_h);
    assert_eq!(w / grid_w, h / grid_h);
    assert!(w <= in_w);
    assert!(h <= in_h);
}

#[test]
fn test_fit() {
    let mut state = 1;
    for _ in 0..20000 {
        let in_w = (next(&mut state) % 65536) as u32;
        let in_h = (next(&mut state) % 65536) as u32;
        let grid_w = (next(&mut state) % 255 + 1) as u32;
        let grid_h = (next(&mut state) % 255 + 1) as u32;
        check_fit(in_w, in_h, grid_w, grid_h);
    }
    for in_w in [0, 1, 2, 255, 256, 65535] {
        for in_h in [0, 1, 2, 255, 256, 65535] {
            for grid_w in [1, 2, 3, 255] {
                for grid_h in [1, 2, 3, 255] {
                    check_fit(in_w, in_h, grid_w, grid_h);
                }
            }
        }
    }
}

#[test]
fn fit_dims_exact_values() {
    assert_eq!(fit_dims(1920, 1080, 4, 3), (1440, 1080));
    assert_eq!(fit_dims(1080, 1920, 4, 3), (1080, 810));
    assert_eq!(fit_dims(100, 100, 3, 3), (99, 99));
    assert_eq!(fit_dims(100, 7, 10, 2), (30, 6));
    assert_eq!(fit_dims(2, 2, 3, 3), (0, 0));
    assert_eq!(fit_dims(0, 10, 1, 1), (0, 0));
}

#[test]
fn centered_grid_offsets() {
    let grid = Grid::centered(100, 101, 3, 3);
    assert_eq!(grid, Grid { x_offset: 1, y_offset: 1, side: 33 });
    let grid = Grid::centered(101, 100, 2, 1);
    assert_eq!(grid, Grid { x_offset: 1, y_offset: 25, side: 50 });
}

#[test]
fn grid_cells_are_cut_row_by_row() {
    let image = numbered(7, 5);
    let cells = make_centered_grid(&image, 3, 2);
    assert_eq!(cells.len(), 6);
    for (k, cell) in cells.iter().enumerate() {
        assert_eq!((cell.width, cell.height), (2, 2));
        let x = 1 + 2 * (k as u8 % 3);
        let y = 1 + 2 * (k as u8 / 3);
        assert_eq!(
            cell.data,
            [x, y, 7, x + 1, y, 7, x, y + 1, 7, x + 1, y + 1, 7]
        );
    }
}

#[test]
fn grid_crop_counts_cells() {
    let image = RgbImage { width: 64, height: 48, data: vec![4; 64 * 48 * 3] };
    for grid_w in 1..8 {
        for grid_h in 1..8 {
            let images = make_centered_grid(&image, grid_w, grid_h);
            assert_eq!(images.len(), (grid_w * grid_h) as usize);
        }
    }
}

#[test]
fn crop_cuts_off_what_sticks_out() {
    let image = numbered(4, 3);
    let part = image.crop(3, 2, 5, 5);
    assert_eq!((part.width, part.height), (1, 1));
    assert_eq!(part.data, [3, 2, 7]);
    let part = image.crop(9, 9, 2, 2);
    assert_eq!((part.width, part.height), (0, 0));
    assert!(part.data.is_empty());
}

#[test]
fn cells_are_inside_disjoint_and_largest() {
    for (width, height, x_cells, y_cells) in [(17, 11, 3, 2), (8, 8, 8, 8), (9, 30, 2, 5)] {
        let grid = Grid::centered(width, height, x_cells, y_cells);
        let mut owner = vec![None; (width * height) as usize];
        for j in 0..y_cells {
            for i in 0..x_cells {
                for y in 0..grid.side {
                    for x in 0..grid.side {
                        let px = grid.x_offset + i * grid.side + x;
                        let py = grid.y_offset + j * grid.side + y;
                        assert!(px < width && py < height);
                        let pixel = &mut owner[(py * width + px) as usize];
                        assert_eq!(*pixel, None);
                        *pixel = Some((i, j));
                    }
                }
            }
        }
        let larger = grid.side + 1;
        assert!(x_cells * larger > width || y_cells * larger > height);
        let behind = width - grid.x_offset - x_cells * grid.side;
        assert!(grid.x_offset == behind || grid.x_offset == behind + 1);
    }
}
