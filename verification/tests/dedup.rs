use fuzzor::stack_trace::{LibFuzzerStackTrace, StackTrace};

const TRACE_A: &str = "INFO: Seed: 1\n==1==ERROR: AddressSanitizer: heap-use-after-free\n    #0 0x55 in foo(int) a.cpp:1\n    #1 0x56 in bar() b.cpp:2\nSUMMARY: AddressSanitizer: heap-use-after-free\n";

const TRACE_B: &str = "INFO: Seed: 99\nnoise\n==7==ERROR: AddressSanitizer: heap-use-after-free\n    #0 0xdead in foo(int) other.cpp:10\n    #1 0xbeef in bar() other.cpp:20\nSUMMARY: AddressSanitizer: heap-use-after-free\n";

#[test]
fn hash_is_sha1_of_frames() {
    let t = LibFuzzerStackTrace::parse(TRACE_A).unwrap();
    assert_eq!(t.frames(), vec!["foo(int)".to_string(), "bar()".to_string()]);
    assert_eq!(t.hash(), "ddf5c5def0f5918604bb343fa08bd06d092ed2c6");
}

#[test]
fn same_frames_same_hash() {
    let a = LibFuzzerStackTrace::parse(TRACE_A).unwrap();
    let b = LibFuzzerStackTrace::parse(TRACE_B).unwrap();
    assert_eq!(a.hash(), b.hash());
}

#[test]
fn no_report_no_trace() {
    assert!(LibFuzzerStackTrace::parse("INFO: nothing here\n    #0 0x1 in foo() a.cpp\n").is_none());
    // A report without frames before the summary gives none either.
    assert!(LibFuzzerStackTrace::parse("==1==ERROR: x\nSUMMARY: x\n").is_none());
}
