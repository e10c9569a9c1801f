use rdd::{Dd, DdError};

fn strings(items: &[&str]) -> Vec<String> {
    items.iter().map(|s| s.to_string()).collect()
}

#[test]
fn arguments_come_in_fixed_order() {
    let mut dd = Dd::new("dd");
    dd.input("a").output("b").bs("4M").count(5);
    assert_eq!(dd.set_args(), Ok(strings(&["if=a", "of=b", "bs=4M", "count=5"])));
}

#[test]
fn input_alone_gives_one_argument() {
    let mut dd = Dd::new("dd");
    dd.input("/dev/zero");
    assert_eq!(dd.set_args(), Ok(strings(&["if=/dev/zero"])));
}

#[test]
fn output_is_left_out_when_not_set() {
    let mut dd = Dd::new("dd");
    dd.input("a").bs("512");
    assert_eq!(dd.set_args(), Ok(strings(&["if=a", "bs=512"])));
}

#[test]
fn input_comes_first_whenever_it_is_set() {
    let mut dd = Dd::new("dd");
    dd.bs("512").output("b").input("a");
    assert_eq!(dd.set_args(), Ok(strings(&["if=a", "of=b", "bs=512"])));
}

#[test]
fn no_input_gives_no_arguments() {
    let dd = Dd::new("dd");
    assert_eq!(dd.set_args(), Err(DdError::NoInput));
    let mut dd = Dd::new("dd");
    dd.output("b").bs("4M").count(5);
    assert_eq!(dd.set_args(), Err(DdError::NoInput));
}

#[test]
fn every_option_has_its_key() {
    let mut dd = Dd::new("dd");
    dd.input("in")
        .bs("1")
        .cbs("2")
        .count(3)
        .seek(4)
        .skip(5)
        .status("progress")
        .conv("noerror,sync")
        .ibs("6")
        .iflag("fullblock")
        .obs("7")
        .oflag("append");
    assert_eq!(
        dd.set_args(),
        Ok(strings(&[
            "if=in",
            "bs=1",
            "cbs=2",
            "count=3",
            "seek=4",
            "skip=5",
            "status=progress",
            "conv=noerror,sync",
            "ibs=6",
            "iflag=fullblock",
            "obs=7",
            "oflag=append",
        ]))
    );
}

#[test]
fn values_are_taken_as_they_are() {
    let mut dd = Dd::new("dd");
    dd.input("").output("a b=c").bs("").status("x=y z");
    assert_eq!(dd.set_args(), Ok(strings(&["if=", "of=a b=c", "bs=", "status=x=y z"])));
}

#[test]
fn later_input_replaces_earlier() {
    let mut dd = Dd::new("dd");
    dd.input("first").input("second");
    assert_eq!(dd.set_args(), Ok(strings(&["if=second"])));
}

#[test]
fn later_output_replaces_earlier() {
    let mut dd = Dd::new("dd");
    dd.input("in").output("first").output("second");
    assert_eq!(dd.set_args(), Ok(strings(&["if=in", "of=second"])));
}

#[test]
fn repeated_options_accumulate_in_call_order() {
    let mut dd = Dd::new("dd");
    dd.input("in").bs("1M").bs("2M");
    assert_eq!(dd.set_args(), Ok(strings(&["if=in", "bs=1M", "bs=2M"])));
    dd.count(1).bs("3M").count(2);
    assert_eq!(
        dd.set_args(),
        Ok(strings(&["if=in", "bs=1M", "bs=2M", "count=1", "bs=3M", "count=2"]))
    );
}

#[test]
fn setters_work_without_chaining() {
    let mut dd = Dd::new("dd");
    dd.input("tests/input.txt");
    dd.output("tests/output.txt");
    dd.bs("1M");
    dd.count(1);
    dd.status("none");
    assert_eq!(
        dd.set_args(),
        Ok(strings(&[
            "if=tests/input.txt",
            "of=tests/output.txt",
            "bs=1M",
            "count=1",
            "status=none",
        ]))
    );
}

#[test]
fn numbers_are_written_in_decimal() {
    let mut dd = Dd::new("dd");
    dd.input("in").count(0).seek(10).skip(18446744073709551615);
    assert_eq!(
        dd.set_args(),
        Ok(strings(&["if=in", "count=0", "seek=10", "skip=18446744073709551615"]))
    );
}

#[test]
fn arguments_can_be_asked_for_again() {
    let mut dd = Dd::new("dd");
    dd.input("in").bs("1");
    assert_eq!(dd.set_args(), dd.set_args());
    dd.bs("2");
    assert_eq!(dd.set_args(), Ok(strings(&["if=in", "bs=1", "bs=2"])));
}
