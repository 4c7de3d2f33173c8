use blast_scheduler::decimal::u64_to_decimal;
use blast_scheduler::replies::{process_engine_banner, read_failure_reply, run_blast_reply};

#[test]
fn decimal_renderings() {
    assert_eq!(u64_to_decimal(0), "0");
    assert_eq!(u64_to_decimal(7), "7");
    assert_eq!(u64_to_decimal(10), "10");
    assert_eq!(u64_to_decimal(90210), "90210");
    assert_eq!(u64_to_decimal(u64::MAX), "18446744073709551615");
}

#[test]
fn run_blast_reply_phrasing() {
    assert_eq!(run_blast_reply("12", 34), "Job 12\nRead 34 bytes from input file");
    assert_eq!(run_blast_reply("a-7", 0), "Job a-7\nRead 0 bytes from input file");
}

#[test]
fn read_failure_reply_phrasing() {
    assert_eq!(
        read_failure_reply("/data/in.fa", "No such file or directory (os error 2)"),
        "Failed to read input file '/data/in.fa': No such file or directory (os error 2)"
    );
}

#[test]
fn process_engine_banner_phrasing() {
    assert_eq!(
        process_engine_banner("3", 120),
        "RUST engine executing job 3 with input length 120"
    );
}
