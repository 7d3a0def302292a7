use rustyboot::uart::Console;

#[test]
fn init_transmits_nothing() {
    let con = Console::init();
    assert!(con.transmitted().is_empty());
}

#[test]
fn putchar_transmits_the_byte_untranslated() {
    let mut con = Console::init();
    con.putchar('A');
    con.putchar('\n');
    assert_eq!(con.transmitted(), &vec![b'A', b'\n']);
}

#[test]
fn print_precedes_newlines_with_carriage_returns() {
    let mut con = Console::init();
    con.print("a\nb");
    assert_eq!(con.transmitted(), &vec![b'a', b'\r', b'\n', b'b']);
}

#[test]
fn println_appends_a_line_ending() {
    let mut con = Console::init();
    con.println("ok");
    con.println("");
    assert_eq!(con.transmitted(), &vec![b'o', b'k', b'\r', b'\n', b'\r', b'\n']);
}
