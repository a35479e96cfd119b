use bit_grid::config::{Cli, DEFAULT_PORT};

#[test]
fn defaults_apply_where_nothing_is_given() {
    let cli = Cli { port: None, dump_path: None, bitmap_path: None };
    assert_eq!(cli.port_or_default(), 3000);
    assert_eq!(DEFAULT_PORT, 3000);
    assert_eq!(cli.dump_path_or_default(), "dump.bin");
    assert_eq!(cli.bitmap_path_or_default(), "dump.png");
}

#[test]
fn given_settings_win() {
    let cli = Cli {
        port: Some(8080),
        dump_path: Some("state/grid.b64".to_owned()),
        bitmap_path: Some("state/grid.png".to_owned()),
    };
    assert_eq!(cli.port_or_default(), 8080);
    assert_eq!(cli.dump_path_or_default(), "state/grid.b64");
    assert_eq!(cli.bitmap_path_or_default(), "state/grid.png");
}
