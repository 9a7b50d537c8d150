use std::io::Write;

#[test]
fn test_console_log() {
    let world = "world";
    println!("hello\n{}", world);
}

#[test]
fn test_console_error() {
    let world = "world";
    let line = format!("hello\n{}\n", world);
    std::io::stderr().write_all(line.as_bytes()).unwrap();
}
