use stage2::display::Displayable;
use stage2::machine::Machine;

#[test]
fn entry_then_halt_emits_nothing() {
    let mut m = Machine::new();
    m.start();
    m.halt();
    assert!(m.is_halted());
    assert_eq!(m.output_count(), 0);
}

#[test]
fn dispatch_boot_banner() {
    let mut m = Machine::new();
    m.start();
    let banner = vec![
        Displayable::Text("u8: "),
        Displayable::U8(8),
        Displayable::Text(" u16: "),
        Displayable::U16(16),
        Displayable::Text(" u32: "),
        Displayable::U32(32),
        Displayable::Text(" u64: "),
        Displayable::U64(64),
    ];
    m.dispatch(&banner);
    m.halt();
    assert_eq!(m.output_count(), 8);
    let expected = ["u8: ", "8", " u16: ", "16", " u32: ", "32", " u64: ", "64"];
    for (i, want) in expected.iter().enumerate() {
        assert_eq!(m.output_at(i).as_str(), *want);
    }
}

#[test]
fn panic_path_one_output_then_halt() {
    let mut m = Machine::new();
    m.start();
    m.emit(&Displayable::Text("booting"));
    let diagnostic = Displayable::Text("Panic!");
    m.fail(Some(&diagnostic));
    assert!(m.is_halted());
    assert_eq!(m.output_count(), 2);
    assert_eq!(m.output_at(0).as_str(), "booting");
    assert_eq!(m.output_at(1).as_str(), "Panic!");
}

#[test]
fn panic_path_zero_outputs_then_halt() {
    let mut m = Machine::new();
    m.start();
    m.fail(None);
    assert!(m.is_halted());
    assert_eq!(m.output_count(), 0);
}
