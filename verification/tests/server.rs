use bit_grid::fine_grained::Grid2;
use bit_grid::grid::{Grid, SubRectInfo};
use bit_grid::grid1::Grid1;
use bit_grid::server::{sub_grid, toggle_reply, window_at, SubRectInfoJson};

#[test]
fn toggle_reply_is_a_digit() {
    assert_eq!(toggle_reply(true), "1");
    assert_eq!(toggle_reply(false), "0");
}

#[test]
fn from_info_encodes_data_and_keeps_geometry() {
    let info = SubRectInfo {
        data: b"hello world~".to_vec(),
        x_shift: 80,
        y_shift: 3,
        width: 96,
        height: 1,
        canvas_width: 1000,
    };
    let json = SubRectInfoJson::from_info(&info);
    assert_eq!(json.data, "aGVsbG8gd29ybGR+");
    assert_eq!(json.x_shift, 80);
    assert_eq!(json.y_shift, 3);
    assert_eq!(json.width, 96);
    assert_eq!(json.height, 1);
    assert_eq!(json.canvas_width, 1000);
}

#[test]
fn from_info_pads_and_handles_empty() {
    let mut info = SubRectInfo {
        data: vec![],
        x_shift: 0,
        y_shift: 0,
        width: 0,
        height: 0,
        canvas_width: 1000,
    };
    assert_eq!(SubRectInfoJson::from_info(&info).data, "");
    info.data = vec![0xff];
    assert_eq!(SubRectInfoJson::from_info(&info).data, "/w==");
    info.data = vec![0xff, 0xee];
    assert_eq!(SubRectInfoJson::from_info(&info).data, "/+4=");
}

#[test]
fn window_at_cuts_ten_bytes_by_eighty_rows() {
    let mut grid = Grid2::new();
    grid.set_item((5 * 125 + 20) * 8, true);
    let window = window_at(&grid, 20, 5).unwrap();
    assert_eq!(window.x_shift, 160);
    assert_eq!(window.y_shift, 5);
    assert_eq!(window.width, 80);
    assert_eq!(window.height, 80);
    assert_eq!(window.canvas_width, 1000);
    // 800 bytes: 266 full groups and one group of two bytes.
    assert_eq!(window.data.len(), 1068);
    assert!(window.data.starts_with("AQAA"));
    assert!(window.data.ends_with("AAA="));
}

#[test]
fn window_at_refuses_places_where_it_does_not_fit() {
    let grid = Grid1::new();
    assert!(window_at(&grid, 115, 920).is_some());
    assert!(window_at(&grid, 116, 0).is_none());
    assert!(window_at(&grid, 0, 921).is_none());
    assert!(window_at(&grid, usize::MAX, 0).is_none());
}

#[test]
fn sub_grid_falls_inside_the_picture() {
    let mut grid = Grid2::new();
    for index in 0..1000 {
        grid.toggle_item(index * 997);
    }
    for _ in 0..200 {
        let window = sub_grid(&grid);
        assert_eq!(window.x_shift % 8, 0);
        assert!(window.x_shift / 8 < 115);
        assert!(window.y_shift < 920);
        assert_eq!(window.width, 80);
        assert_eq!(window.height, 80);
        assert_eq!(window.canvas_width, 1000);
        let same = window_at(&grid, window.x_shift / 8, window.y_shift).unwrap();
        assert_eq!(window.data, same.data);
    }
}

#[test]
fn sub_grid_moves_around() {
    let grid = Grid1::new();
    let mut places = std::collections::HashSet::new();
    for _ in 0..100 {
        let window = sub_grid(&grid);
        places.insert((window.x_shift, window.y_shift));
    }
    assert!(places.len() > 1);
}
