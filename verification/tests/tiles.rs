use rayflex::tiles::{clip_extent, num_tiles, tile_origin};

#[test]
fn num_tiles_rounds_up() {
    assert_eq!(num_tiles(400, 32), 13);
    assert_eq!(num_tiles(400, 10), 40);
    assert_eq!(num_tiles(0, 32), 0);
    assert_eq!(num_tiles(1, 32), 1);
    assert_eq!(num_tiles(32, 32), 1);
    assert_eq!(num_tiles(33, 32), 2);
    assert_eq!(num_tiles(600, 1), 600);
}

#[test]
fn tile_origins_stay_inside_the_image() {
    let (res_x, res_y, step) = (400u32, 400u32, 32u32);
    let nx = num_tiles(res_x, step);
    let ny = num_tiles(res_y, step);
    assert_eq!((nx, ny), (13, 13));
    assert_eq!(tile_origin(0, nx, ny, step, res_x, res_y), (0, 0));
    assert_eq!(tile_origin(12, nx, ny, step, res_x, res_y), (384, 0));
    assert_eq!(tile_origin(13, nx, ny, step, res_x, res_y), (0, 32));
    let last = nx * ny - 1;
    let (x, y) = tile_origin(last, nx, ny, step, res_x, res_y);
    assert_eq!((x, y), (384, 384));
    assert!(x < res_x && y < res_y);
}

#[test]
fn clip_extent_stops_at_the_border() {
    assert_eq!(clip_extent(0, 32, 400), 32);
    assert_eq!(clip_extent(384, 32, 400), 400);
    assert_eq!(clip_extent(400, 32, 400), 400);
    assert_eq!(clip_extent(0, 32, 20), 20);
}

#[test]
fn every_pixel_falls_in_exactly_one_tile() {
    // Runtime mirror of the partition law, on an image whose sides do not
    // divide evenly by the tile step.
    let (res_x, res_y, step) = (100u32, 70u32, 32u32);
    let nx = num_tiles(res_x, step);
    let ny = num_tiles(res_y, step);
    let mut owner = vec![u32::MAX; (res_x * res_y) as usize];
    for v in 0..nx * ny {
        let (x0, y0) = tile_origin(v, nx, ny, step, res_x, res_y);
        let x_max = clip_extent(x0, step, res_x);
        let y_max = clip_extent(y0, step, res_y);
        for y in y0..y_max {
            for x in x0..x_max {
                let idx = (y * res_x + x) as usize;
                assert_eq!(owner[idx], u32::MAX, "pixel written by two tiles");
                owner[idx] = v;
            }
        }
    }
    assert!(owner.iter().all(|&v| v != u32::MAX), "pixel in no tile");
}

#[test]
fn num_tiles_handles_the_largest_span() {
    assert_eq!(num_tiles(u32::MAX, 1), u32::MAX);
    assert_eq!(num_tiles(u32::MAX, 7), 613_566_757);
    assert_eq!(num_tiles(u32::MAX, 32), 134_217_728);
}
