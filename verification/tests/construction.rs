use bodyfile::Bodyfile3Line;

fn sample() -> Bodyfile3Line {
    Bodyfile3Line::from_values(
        "d41d8cd98f00b204e9800998ecf8427e".to_owned(),
        "/etc/passwd".to_owned(),
        "1234".to_owned(),
        "r/rrwxr-xr-x".to_owned(),
        10,
        20,
        1234,
        1000,
        1001,
        1002,
        1003,
    )
}

fn fields(line: &Bodyfile3Line) -> (String, String, String, String, [i64; 7]) {
    (
        line.get_md5().to_owned(),
        line.get_name().to_owned(),
        line.get_inode().to_owned(),
        line.get_mode().to_owned(),
        [
            line.get_uid(),
            line.get_gid(),
            line.get_size(),
            line.get_atime(),
            line.get_mtime(),
            line.get_ctime(),
            line.get_crtime(),
        ],
    )
}

#[test]
fn new_line_holds_the_defaults() {
    let bf = Bodyfile3Line::new();
    assert_eq!(bf.get_md5(), "0");
    assert_eq!(bf.get_name(), "");
    assert_eq!(bf.get_inode(), "0");
    assert_eq!(bf.get_mode(), "");
    assert_eq!(bf.get_uid(), 0);
    assert_eq!(bf.get_gid(), 0);
    assert_eq!(bf.get_size(), 0);
    assert_eq!(bf.get_atime(), -1);
    assert_eq!(bf.get_mtime(), -1);
    assert_eq!(bf.get_ctime(), -1);
    assert_eq!(bf.get_crtime(), -1);
}

#[test]
fn from_values_reads_back_every_field() {
    let line = sample();
    assert_eq!(line.get_md5(), "d41d8cd98f00b204e9800998ecf8427e");
    assert_eq!(line.get_name(), "/etc/passwd");
    assert_eq!(line.get_inode(), "1234");
    assert_eq!(line.get_mode(), "r/rrwxr-xr-x");
    assert_eq!(line.get_uid(), 10);
    assert_eq!(line.get_gid(), 20);
    assert_eq!(line.get_size(), 1234);
    assert_eq!(line.get_atime(), 1000);
    assert_eq!(line.get_mtime(), 1001);
    assert_eq!(line.get_ctime(), 1002);
    assert_eq!(line.get_crtime(), 1003);
}

#[test]
fn from_values_checks_nothing() {
    let line = Bodyfile3Line::from_values(
        "not a digest".to_owned(),
        "a|b\nc".to_owned(),
        "12-128-3".to_owned(),
        "".to_owned(),
        -5,
        i64::MIN,
        i64::MAX,
        0,
        0,
        0,
        0,
    );
    assert_eq!(line.get_md5(), "not a digest");
    assert_eq!(line.get_name(), "a|b\nc");
    assert_eq!(line.get_inode(), "12-128-3");
    assert_eq!(line.get_mode(), "");
    assert_eq!(line.get_uid(), -5);
    assert_eq!(line.get_gid(), i64::MIN);
    assert_eq!(line.get_size(), i64::MAX);
    assert_eq!(line.get_atime(), 0);
    assert_eq!(line.get_crtime(), 0);
}

#[test]
fn with_md5_changes_the_digest_only() {
    let before = fields(&sample());
    let after = fields(&sample().with_md5("ffff".to_owned()));
    assert_eq!(after.0, "ffff");
    assert_eq!((after.1, after.2, after.3, after.4), (before.1, before.2, before.3, before.4));
}

#[test]
fn with_name_changes_the_name_only() {
    let before = fields(&sample());
    let after = fields(&sample().with_name("/bin/sh".to_owned()));
    assert_eq!(after.1, "/bin/sh");
    assert_eq!((after.0, after.2, after.3, after.4), (before.0, before.2, before.3, before.4));
}

#[test]
fn with_inode_changes_the_inode_only() {
    let before = fields(&sample());
    let after = fields(&sample().with_inode("77-128-1".to_owned()));
    assert_eq!(after.2, "77-128-1");
    assert_eq!((after.0, after.1, after.3, after.4), (before.0, before.1, before.3, before.4));
}

#[test]
fn with_mode_changes_the_mode_only() {
    let before = fields(&sample());
    let after = fields(&sample().with_mode("d/drwx------".to_owned()));
    assert_eq!(after.3, "d/drwx------");
    assert_eq!((after.0, after.1, after.2, after.4), (before.0, before.1, before.2, before.4));
}

fn expect_one_number_changed(after: &Bodyfile3Line, index: usize, value: i64) {
    let before = fields(&sample());
    let after = fields(after);
    assert_eq!((&after.0, &after.1, &after.2, &after.3), (&before.0, &before.1, &before.2, &before.3));
    for i in 0..7 {
        if i == index {
            assert_eq!(after.4[i], value);
        } else {
            assert_eq!(after.4[i], before.4[i]);
        }
    }
}

#[test]
fn with_uid_changes_the_owner_only() {
    expect_one_number_changed(&sample().with_uid(501), 0, 501);
}

#[test]
fn with_gid_changes_the_group_only() {
    expect_one_number_changed(&sample().with_gid(-7), 1, -7);
}

#[test]
fn with_size_changes_the_size_only() {
    expect_one_number_changed(&sample().with_size(i64::MAX), 2, i64::MAX);
}

#[test]
fn with_atime_changes_the_access_time_only() {
    expect_one_number_changed(&sample().with_atime(1_600_000_000), 3, 1_600_000_000);
}

#[test]
fn with_mtime_changes_the_modification_time_only() {
    expect_one_number_changed(&sample().with_mtime(1_600_000_001), 4, 1_600_000_001);
}

#[test]
fn with_mtine_is_with_mtime() {
    expect_one_number_changed(&sample().with_mtine(1_600_000_002), 4, 1_600_000_002);
    assert_eq!(
        sample().with_mtine(42).to_string(),
        sample().with_mtime(42).to_string()
    );
}

#[test]
fn with_ctime_changes_the_change_time_only() {
    expect_one_number_changed(&sample().with_ctime(i64::MIN), 5, i64::MIN);
}

#[test]
fn with_crtime_changes_the_creation_time_only() {
    expect_one_number_changed(&sample().with_crtime(0), 6, 0);
}

#[test]
fn setting_the_same_field_twice_keeps_the_later_value() {
    let line = sample().with_uid(1).with_uid(2);
    expect_one_number_changed(&line, 0, 2);
    let line = sample().with_name("first".to_owned()).with_name("second".to_owned());
    assert_eq!(line.get_name(), "second");
}

#[test]
fn two_setters_in_either_order_give_the_same_line() {
    let a = Bodyfile3Line::new().with_name("x".to_owned()).with_size(9);
    let b = Bodyfile3Line::new().with_size(9).with_name("x".to_owned());
    assert_eq!(fields(&a), fields(&b));
    assert_eq!(a.get_name(), "x");
    assert_eq!(a.get_size(), 9);
    assert_eq!(a.to_string(), "0|x|0||0|0|9|-1|-1|-1|-1\n");
    assert_eq!(b.to_string(), "0|x|0||0|0|9|-1|-1|-1|-1\n");

    let c = sample().with_atime(5).with_crtime(6);
    let d = sample().with_crtime(6).with_atime(5);
    assert_eq!(fields(&c), fields(&d));
    assert_eq!(c.get_atime(), 5);
    assert_eq!(c.get_crtime(), 6);
}

#[test]
fn a_chain_of_all_setters_builds_the_whole_line() {
    let line = Bodyfile3Line::new()
        .with_crtime(1003)
        .with_ctime(1002)
        .with_mtime(1001)
        .with_atime(1000)
        .with_size(1234)
        .with_gid(20)
        .with_uid(10)
        .with_mode("r/rrwxr-xr-x".to_owned())
        .with_inode("1234".to_owned())
        .with_name("/etc/passwd".to_owned())
        .with_md5("d41d8cd98f00b204e9800998ecf8427e".to_owned());
    assert_eq!(fields(&line), fields(&sample()));
}
