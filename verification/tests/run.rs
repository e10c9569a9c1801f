use rdd::process::{Invocation, Outcome, Phase, Step};
use rdd::{Dd, DdError};

fn strings(items: &[&str]) -> Vec<String> {
    items.iter().map(|s| s.to_string()).collect()
}

fn exited(success: bool, stdout: &[u8], stderr: &[u8]) -> Outcome {
    Outcome::Exited { success, stdout: stdout.to_vec(), stderr: stderr.to_vec() }
}

/// Runs `dd` against a stand-in for the binary, and counts the copies launched.
fn run_with(
    dd: &Dd,
    query: fn() -> Outcome,
    copy: fn() -> Outcome,
) -> (Result<String, DdError>, usize, usize) {
    let mut queries: usize = 0;
    let mut copies: usize = 0;
    let mut step = dd.start();
    loop {
        match step {
            Step::Run { phase: Phase::Check, .. } => {
                queries += 1;
                step = dd.step(Phase::Check, query());
            }
            Step::Run { phase: Phase::Copy, .. } => {
                copies += 1;
                step = dd.step(Phase::Copy, copy());
            }
            Step::Done(result) => return (result, queries, copies),
        }
    }
}

fn good_query() -> Outcome {
    exited(true, b"dd (stub) 8.32\n", b"")
}

fn good_copy() -> Outcome {
    exited(true, b"", b"1+0 records in\n1+0 records out\n")
}

fn unreachable_copy() -> Outcome {
    panic!("no copy may be launched")
}

#[test]
fn run_starts_with_the_version_query() {
    let mut dd = Dd::new("/bin/dd");
    dd.input("a").bs("1");
    let query = Invocation { program: "/bin/dd".to_string(), args: strings(&["--version"]) };
    assert_eq!(dd.version_query(), query);
    assert_eq!(dd.start(), Step::Run { phase: Phase::Check, invocation: query });
}

#[test]
fn missing_input_fails_without_a_copy() {
    let mut dd = Dd::new("dd");
    dd.output("b").bs("4M");
    let (result, queries, copies) = run_with(&dd, good_query, unreachable_copy);
    assert_eq!(result, Err(DdError::NoInput));
    assert_eq!(queries, 1);
    assert_eq!(copies, 0);
}

#[test]
fn failed_check_comes_before_missing_input() {
    let dd = Dd::new("dd");
    let missing = || Outcome::NotStarted("not found".to_string());
    let (result, queries, copies) = run_with(&dd, missing, unreachable_copy);
    assert_eq!(result, Err(DdError::Missing));
    assert_eq!((queries, copies), (1, 0));
}

#[test]
fn failed_check_launches_no_copy() {
    let mut dd = Dd::new("dd");
    dd.input("a").output("b").min_version((9, 0));
    let (result, queries, copies) = run_with(&dd, good_query, unreachable_copy);
    assert_eq!(result, Err(DdError::OldVersion));
    assert_eq!((queries, copies), (1, 0));
    let short = || exited(true, b"dd 8.32", b"");
    let (result, _, copies) = run_with(&dd, short, unreachable_copy);
    assert_eq!(result, Err(DdError::InvalidOutput));
    assert_eq!(copies, 0);
}

#[test]
fn passed_check_launches_the_copy() {
    let mut dd = Dd::new("/usr/bin/dd");
    dd.input("a").output("b").bs("4M").count(5);
    assert_eq!(
        dd.step(Phase::Check, good_query()),
        Step::Run {
            phase: Phase::Copy,
            invocation: Invocation {
                program: "/usr/bin/dd".to_string(),
                args: strings(&["if=a", "of=b", "bs=4M", "count=5"]),
            },
        }
    );
}

#[test]
fn copy_with_files_stubbed() {
    let mut dd = Dd::new("dd");
    dd.input("tests/input.txt");
    dd.output("tests/output.txt");
    dd.bs("1M");
    dd.count(1);
    dd.status("none");
    assert_eq!(
        dd.step(Phase::Check, exited(true, b"dd (coreutils) 9.4\n", b"")),
        Step::Run {
            phase: Phase::Copy,
            invocation: Invocation {
                program: "dd".to_string(),
                args: strings(&[
                    "if=tests/input.txt",
                    "of=tests/output.txt",
                    "bs=1M",
                    "count=1",
                    "status=none",
                ]),
            },
        }
    );
    let (result, queries, copies) = run_with(&dd, good_query, || exited(true, b"", b""));
    assert!(result.is_ok(), "dd command failed");
    assert_eq!(result, Ok(String::new()));
    assert_eq!((queries, copies), (1, 1));
}

#[test]
fn successful_copy_gives_its_output() {
    let mut dd = Dd::new("dd");
    dd.input("a");
    let copy = || exited(true, b"Hello, dd testing!\n", b"0+1 records in\n");
    let (result, queries, copies) = run_with(&dd, good_query, copy);
    assert_eq!(result, Ok("Hello, dd testing!\n".to_string()));
    assert_eq!((queries, copies), (1, 1));
    assert_eq!(Dd::finish(good_copy()), Ok(String::new()));
}

#[test]
fn successful_copy_with_unreadable_output_is_invalid_utf8() {
    assert_eq!(Dd::finish(exited(true, &[0x80], b"")), Err(DdError::InvalidUTF8));
    assert_eq!(Dd::finish(exited(true, &[b'a', 0xe2, 0x82], b"fine")), Err(DdError::InvalidUTF8));
}

#[test]
fn failed_copy_cannot_run() {
    let mut dd = Dd::new("dd");
    dd.input("/nowhere");
    let copy = || exited(false, b"ignored", b"dd: failed to open '/nowhere'\n");
    let (result, _, copies) = run_with(&dd, good_query, copy);
    assert_eq!(result, Err(DdError::CantRun("dd: failed to open '/nowhere'\n".to_string())));
    assert_eq!(copies, 1);
}

#[test]
fn failed_copy_with_unreadable_stderr_has_a_placeholder() {
    assert_eq!(
        Dd::finish(exited(false, b"", &[0xff, 0x00])),
        Err(DdError::CantRun("unable to get stderr from 'dd'".to_string()))
    );
}

#[test]
fn unstartable_copy_cannot_run() {
    assert_eq!(
        Dd::finish(Outcome::NotStarted("Permission denied (os error 13)".to_string())),
        Err(DdError::CantRun("Permission denied (os error 13)".to_string()))
    );
}

#[test]
fn copy_phase_always_ends_the_run() {
    let dd = Dd::new("dd");
    assert_eq!(dd.step(Phase::Copy, good_query()), Step::Done(Ok("dd (stub) 8.32\n".to_string())));
    assert_eq!(
        dd.step(Phase::Copy, Outcome::NotStarted("gone".to_string())),
        Step::Done(Err(DdError::CantRun("gone".to_string())))
    );
}

#[test]
fn whole_run_against_a_stand_in() {
    let mut dd = Dd::new("dd");
    dd.input("disk.img").output("/dev/null").bs("4M").count(5);
    let mut ran: Vec<Invocation> = Vec::new();
    let mut step = dd.start();
    let result = loop {
        step = match step {
            Step::Run { phase, invocation } => {
                ran.push(invocation);
                dd.step(phase, exited(true, b"dd (coreutils) 9.4\n", b""))
            }
            Step::Done(result) => break result,
        };
    };
    assert_eq!(result, Ok("dd (coreutils) 9.4\n".to_string()));
    assert_eq!(
        ran,
        vec![
            Invocation { program: "dd".to_string(), args: strings(&["--version"]) },
            Invocation {
                program: "dd".to_string(),
                args: strings(&["if=disk.img", "of=/dev/null", "bs=4M", "count=5"]),
            },
        ]
    );
}
