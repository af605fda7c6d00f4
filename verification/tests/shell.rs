use shticker_book_unwritten::shell::{
    account_secret, classify_success, column_width, count_decimal_digits, find_instance,
    read_update_args, split_login_args, split_uptime, success_text, Instance, Success,
};

fn strings(list: &[&str]) -> Vec<String> {
    list.iter().map(|s| s.to_string()).collect()
}

#[test]
fn success_values() {
    assert_eq!(classify_success("true"), Success::Granted);
    assert_eq!(classify_success("delayed"), Success::Delayed);
    assert_eq!(classify_success("partial"), Success::Partial);
    assert_eq!(classify_success("false"), Success::Denied);
    for other in ["", "True", "true ", "yes", "delay", "partially"] {
        assert_eq!(classify_success(other), Success::Unexpected);
    }
    assert_eq!(classify_success(success_text(true)), Success::Granted);
    assert_eq!(classify_success(success_text(false)), Success::Denied);
}

#[test]
fn login_arguments() {
    assert_eq!(split_login_args(&strings(&[])), (strings(&[]), false));
    assert_eq!(split_login_args(&strings(&["ann"])), (strings(&["ann"]), false));
    assert_eq!(
        split_login_args(&strings(&["ann", "-n", "bob"])),
        (strings(&["ann", "bob"]), true)
    );
    assert_eq!(
        split_login_args(&strings(&["--no-save", "--no-save", "-n"])),
        (strings(&[]), true)
    );
    assert_eq!(
        split_login_args(&strings(&["-N", "--nosave", "-n "])),
        (strings(&["-N", "--nosave", "-n "]), false)
    );
}

#[test]
fn update_arguments() {
    assert_eq!(read_update_args(&strings(&[])), Ok(false));
    assert_eq!(read_update_args(&strings(&["-y"])), Ok(true));
    assert_eq!(read_update_args(&strings(&["--dry-update", "-y"])), Ok(true));
    assert_eq!(read_update_args(&strings(&["now"])), Err(0));
    assert_eq!(read_update_args(&strings(&["-y", "-q", "-y", "-z"])), Err(1));
    assert_eq!(read_update_args(&strings(&["-y", "-y", "--dry"])), Err(2));
}

#[test]
fn account_secrets() {
    assert_eq!(account_secret(true, "pw".to_string()), Some("pw".to_string()));
    assert_eq!(account_secret(false, "pw".to_string()), None);
    assert_eq!(account_secret(true, String::new()), Some(String::new()));
}

fn instances() -> Vec<Instance> {
    vec![
        Instance { username: "ann".to_string(), pid: 100 },
        Instance { username: "200".to_string(), pid: 300 },
        Instance { username: "bob".to_string(), pid: 200 },
        Instance { username: "ann".to_string(), pid: 200 },
    ]
}

#[test]
fn instance_by_pid_then_by_name() {
    let list = instances();
    assert_eq!(find_instance(&list, "100", Some(100)), Some(0));
    assert_eq!(find_instance(&list, "ann", None), Some(0));
    assert_eq!(find_instance(&list, "bob", None), Some(2));
    // A number is a process id first, and a username only where no process has it.
    assert_eq!(find_instance(&list, "200", Some(200)), Some(2));
    assert_eq!(find_instance(&list, "300", Some(300)), Some(1));
    let two = vec![
        Instance { username: "7".to_string(), pid: 1 },
        Instance { username: "x".to_string(), pid: 2 },
    ];
    assert_eq!(find_instance(&two, "7", Some(7)), Some(0));
    assert_eq!(find_instance(&two, "8", Some(8)), None);
    assert_eq!(find_instance(&two, "y", None), None);
    assert_eq!(find_instance(&Vec::new(), "ann", Some(1)), None);
}

#[test]
fn digit_counts() {
    let cases = [
        (0u32, 1usize),
        (9, 1),
        (10, 2),
        (99, 2),
        (100, 3),
        (999, 3),
        (1_000, 4),
        (9_999, 4),
        (10_000, 5),
        (99_999, 5),
        (100_000, 6),
        (999_999, 6),
        (1_000_000, 7),
        (9_999_999, 7),
        (10_000_000, 8),
        (99_999_999, 8),
        (100_000_000, 9),
        (999_999_999, 9),
        (1_000_000_000, 10),
        (u32::MAX, 10),
    ];
    for (n, digits) in cases {
        assert_eq!(count_decimal_digits(n), digits, "{}", n);
        assert_eq!(count_decimal_digits(n), n.to_string().len());
    }
}

#[test]
fn uptimes() {
    for (secs, h, m, s) in [
        (0u64, 0u64, 0u64, 0u64),
        (59, 0, 0, 59),
        (60, 0, 1, 0),
        (3_599, 0, 59, 59),
        (3_600, 1, 0, 0),
        (3_661, 1, 1, 1),
        (90_061, 25, 1, 1),
    ] {
        let u = split_uptime(secs);
        assert_eq!((u.hours, u.minutes, u.seconds), (h, m, s));
    }
    let u = split_uptime(u64::MAX);
    assert_eq!(u.hours * 3600 + u.minutes * 60 + u.seconds, u64::MAX);
}

#[test]
fn column_widths() {
    assert_eq!(column_width(8, &vec![]), 8);
    assert_eq!(column_width(8, &vec![3, 5]), 8);
    assert_eq!(column_width(8, &vec![3, 12, 9]), 12);
    assert_eq!(column_width(0, &vec![0]), 0);
}
