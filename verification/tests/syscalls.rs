use systrace::syscalls::{syscall_name, SYS_CLOSE, SYS_OPEN, SYS_READ, SYS_WRITE};

#[test]
fn test_syscall_name_known() {
    assert_eq!(syscall_name(SYS_READ), "read");
    assert_eq!(syscall_name(SYS_WRITE), "write");
    assert_eq!(syscall_name(SYS_OPEN), "open");
    assert_eq!(syscall_name(SYS_CLOSE), "close");
}

#[test]
fn test_syscall_name_unknown() {
    assert_eq!(syscall_name(999), "unknown");
    assert_eq!(syscall_name(1000), "unknown");
}

#[test]
fn test_syscall_name_total_on_large_numbers() {
    assert_eq!(syscall_name(u64::MAX), "unknown");
    assert_eq!(syscall_name(4), "unknown");
}
