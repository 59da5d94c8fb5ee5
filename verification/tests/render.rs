use dynerror::{Context, Error, Failure, Location};

fn at(line: u32, column: u32) -> Location {
    Location::new("main.rs", line, column)
}

#[test]
fn leaf_trace_is_the_header_alone() {
    let e = Error::new("Initialization failed", at(5, 1));
    assert_eq!(e.trace(), "error:main.rs:5:1: Initialization failed");
}

#[test]
fn absent_value_with_context_renders_the_context() {
    let absent: Option<u8> = None;
    let e = absent.context("missing X", at(3, 9)).unwrap_err();
    assert_eq!(e.concise(), "missing X");
    assert_eq!(e.chained(), "missing X");
    assert!(e.source().is_none());
}

#[test]
fn two_layers_render_outermost_first() {
    let failed: Result<u8, Failure> = Err(Failure::foreign("No such file or directory (os error 2)"));
    let inner: Result<u8, Error> = failed.context("reading file", at(20, 5));
    let outer = inner.context("startup failed", at(15, 6)).unwrap_err();
    assert_eq!(
        outer.chained(),
        "startup failed: reading file: No such file or directory (os error 2)"
    );
    assert_eq!(outer.concise(), "startup failed");
}

#[test]
fn two_layers_trace_shows_two_cause_lines() {
    let failed: Result<u8, Failure> = Err(Failure::foreign("No such file or directory (os error 2)"));
    let inner: Result<u8, Error> = failed.context("reading file", at(20, 5));
    let outer = inner.context("startup failed", at(15, 6)).unwrap_err();
    let text = outer.trace();
    assert_eq!(
        text,
        "error:main.rs:15:6: startup failed\n\ncaused by:\n\tmain.rs:20:5: reading file\n\tNo such file or directory (os error 2)\n"
    );
    let after_marker = text.split("caused by:\n").nth(1).unwrap();
    assert_eq!(after_marker.lines().count(), 2);
    assert!(after_marker.lines().all(|line| line.starts_with('\t')));
}
