use cda_copy::listing::parse_track_list;
use cda_copy::names::disc_file_list;
use cda_copy::names::disc_file_name;
use cda_copy::names::drive_address;
use cda_copy::names::final_file_list;
use cda_copy::names::join_path;
use cda_copy::names::track_origin;
use cda_copy::names::u64_to_decimal;
use cda_copy::names::workspace_name;

#[test]
fn decimal_rendering() {
    assert_eq!(u64_to_decimal(0), "0");
    assert_eq!(u64_to_decimal(7), "7");
    assert_eq!(u64_to_decimal(10), "10");
    assert_eq!(u64_to_decimal(1234567890), "1234567890");
    assert_eq!(u64_to_decimal(u64::MAX), "18446744073709551615");
}

#[test]
fn workspace_names() {
    assert_eq!(workspace_name(1700000000), ".tmp1700000000");
    assert_eq!(workspace_name(0), ".tmp0");
    assert_ne!(workspace_name(1700000000), workspace_name(1700000001));
}

#[test]
fn disc_intermediate_names() {
    assert_eq!(disc_file_name(0), "tmp000.wav");
    assert_eq!(disc_file_name(7), "tmp007.wav");
    assert_eq!(disc_file_name(42), "tmp042.wav");
    assert_eq!(disc_file_name(123), "tmp123.wav");
    assert_eq!(disc_file_name(1000), "tmp1000.wav");
}

#[test]
fn path_building() {
    assert_eq!(join_path(".tmp1", "t1.wav"), ".tmp1/t1.wav");
    assert_eq!(drive_address("sr0"), "cdda://sr0/");
    assert_eq!(
        track_origin("sr0", "Track 1.wav"),
        "/run/user/1000/gvfs/cdda:host=sr0/Track 1.wav"
    );
}

#[test]
fn track_origin_escapes_names() {
    // The escaping is not the identity: a tab in a track name comes out
    // as a backslash escape, as the mount layer shows it.
    assert_eq!(
        track_origin("sr0", "a\tb"),
        "/run/user/1000/gvfs/cdda:host=sr0/a\\tb"
    );
}

#[test]
fn per_disc_file_lists() {
    let tracks = vec![String::from("t1"), String::from("t2")];
    let listed = disc_file_list(".tmp9", &tracks);
    assert_eq!(listed, vec![String::from(".tmp9/t1"), String::from(".tmp9/t2")]);
}

#[test]
fn final_file_lists_ascend() {
    let listed = final_file_list(".tmp9", 3);
    assert_eq!(
        listed,
        vec![
            String::from(".tmp9/tmp000.wav"),
            String::from(".tmp9/tmp001.wav"),
            String::from(".tmp9/tmp002.wav"),
        ]
    );
    assert_eq!(final_file_list(".tmp9", 0), Vec::<String>::new());
}

#[test]
fn listing_splits_lines() {
    assert_eq!(parse_track_list("t1\nt2\nt3\n"), vec!["t1", "t2", "t3"]);
    assert_eq!(parse_track_list("t1"), vec!["t1"]);
    assert_eq!(parse_track_list("a\n\nb"), vec!["a", "", "b"]);
    assert_eq!(parse_track_list("a\n\n"), vec!["a", ""]);
    assert_eq!(parse_track_list("\n"), vec![""]);
}

#[test]
fn listing_empty_is_no_tracks() {
    assert_eq!(parse_track_list(""), Vec::<String>::new());
}
