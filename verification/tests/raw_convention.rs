use i18n_greeter::abi::{StringRef, PAGE_SIZE};
use i18n_greeter::error::HostError;
use i18n_greeter::raw::RawInstance;
use i18n_greeter::registry::{CapabilityRegistry, HostFunction};

/// An English greeter under the raw-pointer convention. It keeps nothing in
/// memory of its own: its texts come from passive data segments, and its
/// results go into the slack of the output slot or behind the input.
const ENGLISH: &str = r#"
(module
  (import "host" "hour" (func $hour (result i32)))
  (memory (export "memory") 1)
  (data $english "English")
  (data $morning "Good morning, ")
  (data $afternoon "Good afternoon, ")
  (data $evening "Good evening, ")
  (func $reserve (param $end i32)
    (block $done
      (loop $more
        (br_if $done
          (i32.le_u (local.get $end) (i32.mul (memory.size) (i32.const 65536))))
        (if (i32.eq (memory.grow (i32.const 1)) (i32.const -1)) (then unreachable))
        (br $more))))
  (func (export "language") (param $out i32)
    (memory.init $english
      (i32.add (local.get $out) (i32.const 8)) (i32.const 0) (i32.const 7))
    (i32.store (local.get $out) (i32.add (local.get $out) (i32.const 8)))
    (i32.store offset=4 (local.get $out) (i32.const 7)))
  (func (export "greet") (param $out i32) (param $ptr i32) (param $len i32)
    (local $hour i32) (local $dst i32) (local $n i32)
    (local.set $hour (call $hour))
    (local.set $dst (i32.add (local.get $ptr) (local.get $len)))
    (call $reserve (i32.add (local.get $dst) (i32.add (local.get $len) (i32.const 17))))
    (if (i32.lt_u (local.get $hour) (i32.const 12))
      (then
        (memory.init $morning (local.get $dst) (i32.const 0) (i32.const 14))
        (local.set $n (i32.const 14)))
      (else
        (if (i32.lt_u (local.get $hour) (i32.const 18))
          (then
            (memory.init $afternoon (local.get $dst) (i32.const 0) (i32.const 16))
            (local.set $n (i32.const 16)))
          (else
            (memory.init $evening (local.get $dst) (i32.const 0) (i32.const 14))
            (local.set $n (i32.const 14))))))
    (memory.copy
      (i32.add (local.get $dst) (local.get $n)) (local.get $ptr) (local.get $len))
    (i32.store8
      (i32.add (i32.add (local.get $dst) (local.get $n)) (local.get $len))
      (i32.const 33))
    (i32.store (local.get $out) (local.get $dst))
    (i32.store offset=4 (local.get $out)
      (i32.add (i32.add (local.get $n) (local.get $len)) (i32.const 1)))))
"#;

/// Exports what binding asks for and does nothing; its memory starts empty
/// and may grow to `max` pages.
fn idle(initial: u32, max: u32) -> Vec<u8> {
    let text = format!(
        r#"(module
             (memory (export "memory") {initial} {max})
             (func (export "language") (param i32))
             (func (export "greet") (param i32 i32 i32)))"#
    );
    wat::parse_str(text).unwrap()
}

fn english(hour: i32) -> RawInstance {
    let mut registry = CapabilityRegistry::empty();
    registry.register("hour", HostFunction::Fixed(hour));
    RawInstance::from_module(&wat::parse_str(ENGLISH).unwrap(), &registry).unwrap()
}

fn idle_instance(initial: u32, max: u32) -> RawInstance {
    RawInstance::from_module(&idle(initial, max), &CapabilityRegistry::empty()).unwrap()
}

fn fault<T>(r: Result<T, HostError>) -> HostError {
    match r {
        Ok(_) => panic!("expected a failure"),
        Err(e) => e,
    }
}

#[test]
fn language_query_returns_english() {
    let mut plugin = english(9);
    assert_eq!(plugin.call_language(), Ok("English".to_string()));
    assert_eq!(plugin.cursor_offset(), 0);
}

#[test]
fn greeting_follows_the_hour_the_host_reports() {
    assert_eq!(english(9).call_greet("Ada"), Ok("Good morning, Ada!".to_string()));
    assert_eq!(english(14).call_greet("Ada"), Ok("Good afternoon, Ada!".to_string()));
    assert_eq!(english(20).call_greet("Ada"), Ok("Good evening, Ada!".to_string()));
}

#[test]
fn noon_and_six_fall_on_the_later_side() {
    assert_eq!(english(11).call_greet("Ada"), Ok("Good morning, Ada!".to_string()));
    assert_eq!(english(12).call_greet("Ada"), Ok("Good afternoon, Ada!".to_string()));
    assert_eq!(english(17).call_greet("Ada"), Ok("Good afternoon, Ada!".to_string()));
    assert_eq!(english(18).call_greet("Ada"), Ok("Good evening, Ada!".to_string()));
}

#[test]
fn local_hour_capability_gives_one_of_the_three_greetings() {
    let mut registry = CapabilityRegistry::empty();
    registry.register("hour", HostFunction::LocalHour);
    let mut plugin =
        RawInstance::from_module(&wat::parse_str(ENGLISH).unwrap(), &registry).unwrap();
    let greeting = plugin.call_greet("Ada").unwrap();
    assert!(
        greeting == "Good morning, Ada!"
            || greeting == "Good afternoon, Ada!"
            || greeting == "Good evening, Ada!"
    );
}

#[test]
fn greet_takes_names_beyond_ascii() {
    assert_eq!(
        english(9).call_greet("Zoë 🌍"),
        Ok("Good morning, Zoë 🌍!".to_string())
    );
    assert_eq!(english(9).call_greet(""), Ok("Good morning, !".to_string()));
}

#[test]
fn consecutive_greets_do_not_leak_into_each_other() {
    let mut plugin = english(9);
    assert_eq!(
        plugin.call_greet("Bartholomew"),
        Ok("Good morning, Bartholomew!".to_string())
    );
    assert_eq!(plugin.cursor_offset(), 0);
    assert_eq!(plugin.call_greet("Al"), Ok("Good morning, Al!".to_string()));
    assert_eq!(plugin.call_language(), Ok("English".to_string()));
    assert_eq!(plugin.call_greet("Al"), Ok("Good morning, Al!".to_string()));
}

#[test]
fn second_staging_overwrites_the_first_input() {
    let mut plugin = idle_instance(1, 4);
    let (slot, input) = plugin.stage_greet("Bartholomew").unwrap();
    assert_eq!((slot, input), (0, StringRef { offset: 16, length: 11 }));
    plugin.reset();
    let (slot, input) = plugin.stage_greet("Al").unwrap();
    assert_eq!((slot, input), (0, StringRef { offset: 16, length: 2 }));
    assert_eq!(plugin.read_string(input), Ok("Al".to_string()));
    assert_eq!(plugin.cursor_offset(), 18);
}

#[test]
fn missing_greet_export_fails_binding() {
    let module = wat::parse_str(
        r#"(module
             (memory (export "memory") 1)
             (func (export "language") (param i32)))"#,
    )
    .unwrap();
    let made = RawInstance::from_module(&module, &CapabilityRegistry::empty());
    assert_eq!(fault(made), HostError::Binding { export: "greet".to_string() });
}

#[test]
fn mistyped_language_export_fails_binding() {
    let module = wat::parse_str(
        r#"(module
             (memory (export "memory") 1)
             (func (export "language") (result i32) (i32.const 0))
             (func (export "greet") (param i32 i32 i32)))"#,
    )
    .unwrap();
    let made = RawInstance::from_module(&module, &CapabilityRegistry::empty());
    assert_eq!(fault(made), HostError::Binding { export: "language".to_string() });
}

#[test]
fn missing_memory_export_fails_binding() {
    let module = wat::parse_str(
        r#"(module
             (memory 1)
             (func (export "language") (param i32))
             (func (export "greet") (param i32 i32 i32)))"#,
    )
    .unwrap();
    let made = RawInstance::from_module(&module, &CapabilityRegistry::empty());
    assert_eq!(fault(made), HostError::MemoryExportMissing);
}

#[test]
fn unregistered_import_fails_instantiation() {
    let made = RawInstance::from_module(
        &wat::parse_str(ENGLISH).unwrap(),
        &CapabilityRegistry::empty(),
    );
    assert_eq!(fault(made), HostError::UnsatisfiedImport { name: "hour".to_string() });
}

#[test]
fn imported_memory_cannot_be_satisfied() {
    let module = wat::parse_str(r#"(module (import "host" "mem" (memory 1)))"#).unwrap();
    let mut registry = CapabilityRegistry::empty();
    registry.register("mem", HostFunction::Fixed(0));
    let made = RawInstance::from_module(&module, &registry);
    assert_eq!(fault(made), HostError::UnsatisfiedImport { name: "mem".to_string() });
}

#[test]
fn import_of_another_type_is_refused_by_the_engine() {
    let module = wat::parse_str(
        r#"(module (import "host" "hour" (func (param i32) (result i64))))"#,
    )
    .unwrap();
    let mut registry = CapabilityRegistry::empty();
    registry.register("hour", HostFunction::Fixed(9));
    assert_eq!(fault(RawInstance::from_module(&module, &registry)), HostError::Engine);
}

#[test]
fn malformed_bytes_fail_to_load() {
    let made = RawInstance::from_module(b"not a module", &CapabilityRegistry::empty());
    assert_eq!(fault(made), HostError::Load);
    let made = RawInstance::from_module(&[], &CapabilityRegistry::empty());
    assert_eq!(fault(made), HostError::Load);
}

#[test]
fn trap_in_the_plugin_is_an_engine_fault() {
    let module = wat::parse_str(
        r#"(module
             (memory (export "memory") 1)
             (func (export "language") (param i32) unreachable)
             (func (export "greet") (param i32 i32 i32) unreachable))"#,
    )
    .unwrap();
    let mut plugin = RawInstance::from_module(&module, &CapabilityRegistry::empty()).unwrap();
    assert_eq!(plugin.call_language(), Err(HostError::Engine));
    assert_eq!(plugin.cursor_offset(), 0);
    assert_eq!(plugin.call_greet("Ada"), Err(HostError::Engine));
    assert_eq!(plugin.cursor_offset(), 0);
}

#[test]
fn reply_outside_memory_is_a_memory_fault() {
    let module = wat::parse_str(
        r#"(module
             (memory (export "memory") 1 1)
             (func (export "language") (param $out i32)
               (i32.store (local.get $out) (i32.const 65530))
               (i32.store offset=4 (local.get $out) (i32.const 7)))
             (func (export "greet") (param i32 i32 i32)))"#,
    )
    .unwrap();
    let mut plugin = RawInstance::from_module(&module, &CapabilityRegistry::empty()).unwrap();
    assert_eq!(plugin.call_language(), Err(HostError::MemoryFault));
}

#[test]
fn reply_that_is_not_utf8_is_a_decode_error() {
    let module = wat::parse_str(
        r#"(module
             (memory (export "memory") 1)
             (func (export "language") (param $out i32)
               (i32.store8 offset=8 (local.get $out) (i32.const 0xff))
               (i32.store (local.get $out) (i32.add (local.get $out) (i32.const 8)))
               (i32.store offset=4 (local.get $out) (i32.const 1)))
             (func (export "greet") (param i32 i32 i32)))"#,
    )
    .unwrap();
    let mut plugin = RawInstance::from_module(&module, &CapabilityRegistry::empty()).unwrap();
    assert_eq!(plugin.call_language(), Err(HostError::Decode));
}

#[test]
fn string_round_trip() {
    let mut plugin = idle_instance(1, 4);
    for s in ["", "Ada", "Zoë", "日本語", "🌍 hello 🌍", "a\0b"] {
        let at = plugin.write_string(s).unwrap();
        assert_eq!(at.length as usize, s.len());
        assert_eq!(plugin.read_string(at), Ok(s.to_string()));
    }
}

#[test]
fn strings_are_laid_out_one_after_another() {
    let mut plugin = idle_instance(1, 4);
    let first = plugin.write_string("Ada").unwrap();
    let second = plugin.write_string("Zoë").unwrap();
    assert_eq!(first, StringRef { offset: 0, length: 3 });
    assert_eq!(second, StringRef { offset: 3, length: 4 });
    assert_eq!(plugin.cursor_offset(), 7);
    assert_eq!(plugin.read_bytes(StringRef { offset: 0, length: 7 }), Ok(b"AdaZo\xc3\xab".to_vec()));
    assert_eq!(plugin.read_string(first), Ok("Ada".to_string()));
}

#[test]
fn large_payload_grows_page_by_page() {
    let mut plugin = idle_instance(0, 16);
    assert_eq!(plugin.memory_len(), 0);
    let name = "x".repeat(100_000);
    let at = plugin.write_string(&name).unwrap();
    assert_eq!(at, StringRef { offset: 0, length: 100_000 });
    assert_eq!(plugin.memory_len(), 2 * PAGE_SIZE);
    assert_eq!(plugin.read_string(at), Ok(name));
}

#[test]
fn large_name_goes_through_greet() {
    let mut plugin = english(20);
    let name = "né".repeat(40_000);
    let expected = format!("Good evening, {name}!");
    assert_eq!(name.len(), 120_000);
    assert_eq!(plugin.call_greet(&name), Ok(expected));
}

#[test]
fn allocate_grows_by_whole_pages_only_when_short() {
    let mut plugin = idle_instance(1, 8);
    assert_eq!(plugin.memory_len(), PAGE_SIZE);
    assert_eq!(plugin.allocate(16), Ok(0));
    assert_eq!(plugin.memory_len(), PAGE_SIZE);
    assert_eq!(plugin.allocate(65_520), Ok(16));
    assert_eq!(plugin.memory_len(), PAGE_SIZE);
    assert_eq!(plugin.allocate(1), Ok(65_536));
    assert_eq!(plugin.memory_len(), 2 * PAGE_SIZE);
    assert_eq!(plugin.allocate(3 * 65_536), Ok(65_537));
    assert_eq!(plugin.memory_len(), 5 * PAGE_SIZE);
    assert_eq!(plugin.allocate(0), Ok(262_145));
    assert_eq!(plugin.cursor_offset(), 262_145);
}

#[test]
fn refused_growth_is_a_memory_fault_and_keeps_the_cursor() {
    let mut plugin = idle_instance(1, 2);
    assert_eq!(plugin.allocate(100), Ok(0));
    assert_eq!(plugin.allocate(3 * 65_536), Err(HostError::MemoryFault));
    assert_eq!(plugin.cursor_offset(), 100);
    assert_eq!(plugin.memory_len(), 2 * PAGE_SIZE);
    assert_eq!(plugin.allocate(u32::MAX), Err(HostError::MemoryFault));
    assert_eq!(plugin.cursor_offset(), 100);
    assert_eq!(plugin.allocate(65_536), Ok(100));
}

#[test]
fn reset_starts_allocation_at_zero_again() {
    let mut plugin = idle_instance(1, 4);
    assert_eq!(plugin.allocate(70_000), Ok(0));
    assert_eq!(plugin.allocate(5), Ok(70_000));
    plugin.reset();
    assert_eq!(plugin.cursor_offset(), 0);
    assert_eq!(plugin.memory_len(), 2 * PAGE_SIZE);
    assert_eq!(plugin.allocate(8), Ok(0));
}

#[test]
fn reads_are_checked_against_the_current_size() {
    let mut plugin = idle_instance(1, 2);
    let at = StringRef { offset: 65_530, length: 7 };
    assert_eq!(plugin.read_string(at), Err(HostError::MemoryFault));
    assert_eq!(plugin.read_bytes(at), Err(HostError::MemoryFault));
    assert_eq!(plugin.read_bounds(65_529), Err(HostError::MemoryFault));
    assert_eq!(plugin.write_bytes(65_535, b"ab"), Err(HostError::MemoryFault));
    assert_eq!(
        plugin.read_string(StringRef { offset: u32::MAX, length: u32::MAX }),
        Err(HostError::MemoryFault)
    );
    assert_eq!(plugin.allocate(65_537), Ok(0));
    assert_eq!(plugin.read_string(at), Ok("\0\0\0\0\0\0\0".to_string()));
    assert_eq!(plugin.read_bounds(65_529), Ok(StringRef { offset: 0, length: 0 }));
    assert_eq!(plugin.write_bytes(65_535, b"ab"), Ok(()));
    assert_eq!(plugin.read_bytes(StringRef { offset: 65_534, length: 4 }), Ok(b"\0ab\0".to_vec()));
}

#[test]
fn invalid_utf8_in_memory_is_a_decode_error() {
    let mut plugin = idle_instance(1, 1);
    assert_eq!(plugin.write_bytes(10, &[b'o', b'k', 0xc3, 0x28]), Ok(()));
    assert_eq!(plugin.read_string(StringRef { offset: 10, length: 2 }), Ok("ok".to_string()));
    assert_eq!(plugin.read_string(StringRef { offset: 10, length: 4 }), Err(HostError::Decode));
    assert_eq!(plugin.read_string(StringRef { offset: 10, length: 3 }), Err(HostError::Decode));
}

#[test]
fn bounds_record_is_read_where_it_was_written() {
    let mut plugin = idle_instance(1, 1);
    let at = plugin.write_string("English").unwrap();
    let slot = plugin.allocate(16).unwrap();
    assert_eq!(slot, 7);
    assert_eq!(plugin.write_bounds(slot, at), Ok(()));
    assert_eq!(
        plugin.read_bytes(StringRef { offset: 7, length: 8 }),
        Ok(vec![0, 0, 0, 0, 7, 0, 0, 0])
    );
    assert_eq!(plugin.read_bounds(slot), Ok(at));
    assert_eq!(plugin.read_reply(slot), Ok("English".to_string()));
    assert_eq!(plugin.write_bounds(65_529, at), Err(HostError::MemoryFault));
}

#[test]
fn echoing_plugin_returns_the_second_name_whole() {
    let module = wat::parse_str(
        r#"(module
             (memory (export "memory") 1)
             (func (export "language") (param i32))
             (func (export "greet") (param $out i32) (param $ptr i32) (param $len i32)
               (i32.store (local.get $out) (local.get $ptr))
               (i32.store offset=4 (local.get $out) (local.get $len))))"#,
    )
    .unwrap();
    let mut plugin = RawInstance::from_module(&module, &CapabilityRegistry::empty()).unwrap();
    assert_eq!(plugin.call_greet("Bartholomew"), Ok("Bartholomew".to_string()));
    assert_eq!(plugin.call_greet("Al"), Ok("Al".to_string()));
    assert_eq!(plugin.call_greet(""), Ok(String::new()));
    assert_eq!(plugin.call_greet("Zoë"), Ok("Zoë".to_string()));
}

#[test]
fn bytes_of_a_component_are_no_module() {
    let component = wat::parse_str("(component)").unwrap();
    let made = RawInstance::from_module(&component, &CapabilityRegistry::empty());
    assert_eq!(fault(made), HostError::Load);
}

#[test]
fn staging_succeeds_wherever_slot_and_name_fit() {
    let mut plugin = idle_instance(1, 1);
    let name = "x".repeat(65_520);
    assert_eq!(plugin.stage_greet(&name), Ok((0, StringRef { offset: 16, length: 65_520 })));
    assert_eq!(plugin.cursor_offset(), 65_536);
    assert_eq!(plugin.memory_len(), PAGE_SIZE);
}

#[test]
fn staging_grows_by_the_least_number_of_pages() {
    let mut plugin = idle_instance(0, 16);
    let name = "x".repeat(100_000);
    assert_eq!(plugin.stage_greet(&name), Ok((0, StringRef { offset: 16, length: 100_000 })));
    assert_eq!(plugin.memory_len(), 2 * PAGE_SIZE);
    plugin.reset();
    let name = "x".repeat(2 * 65_536 - 16);
    assert_eq!(
        plugin.stage_greet(&name),
        Ok((0, StringRef { offset: 16, length: 2 * 65_536 - 16 }))
    );
    assert_eq!(plugin.memory_len(), 2 * PAGE_SIZE);
    plugin.reset();
    let name = "x".repeat(2 * 65_536 - 15);
    assert!(plugin.stage_greet(&name).is_ok());
    assert_eq!(plugin.memory_len(), 3 * PAGE_SIZE);
}

#[test]
fn refused_name_leaves_the_slot_allocated() {
    let mut plugin = idle_instance(1, 2);
    let name = "x".repeat(2 * 65_536);
    assert_eq!(plugin.stage_greet(&name), Err(HostError::MemoryFault));
    assert_eq!(plugin.cursor_offset(), 16);
    assert_eq!(plugin.memory_len(), 2 * PAGE_SIZE);
}

#[test]
fn refused_slot_leaves_the_cursor_where_it_was() {
    let mut plugin = idle_instance(0, 0);
    assert_eq!(plugin.stage_greet("Ada"), Err(HostError::MemoryFault));
    assert_eq!(plugin.cursor_offset(), 0);
    assert_eq!(plugin.memory_len(), 0);
}

#[test]
fn call_without_room_for_the_slot_is_a_memory_fault() {
    let mut plugin = idle_instance(0, 0);
    assert_eq!(plugin.call_language(), Err(HostError::MemoryFault));
    assert_eq!(plugin.memory_len(), 0);
    assert_eq!(plugin.cursor_offset(), 0);
    assert_eq!(plugin.call_greet("Ada"), Err(HostError::MemoryFault));
    assert_eq!(plugin.memory_len(), 0);
    assert_eq!(plugin.cursor_offset(), 0);
}

#[test]
fn call_without_room_for_the_name_is_a_memory_fault() {
    let mut plugin = idle_instance(1, 1);
    let name = "x".repeat(65_521);
    assert_eq!(plugin.call_greet(&name), Err(HostError::MemoryFault));
    assert_eq!(plugin.cursor_offset(), 0);
    assert_eq!(plugin.memory_len(), PAGE_SIZE);
    let name = "x".repeat(65_520);
    assert_eq!(plugin.call_greet(&name), Ok(String::new()));
}

#[test]
fn memory_is_no_shorter_after_a_call() {
    let module = wat::parse_str(
        r#"(module
             (memory (export "memory") 1)
             (func (export "language") (param i32)
               (drop (memory.grow (i32.const 2))))
             (func (export "greet") (param i32 i32 i32)))"#,
    )
    .unwrap();
    let mut plugin = RawInstance::from_module(&module, &CapabilityRegistry::empty()).unwrap();
    assert_eq!(plugin.memory_len(), PAGE_SIZE);
    assert_eq!(plugin.call_language(), Ok(String::new()));
    assert_eq!(plugin.memory_len(), 3 * PAGE_SIZE);
    assert_eq!(plugin.call_greet("Ada"), Ok(String::new()));
    assert_eq!(plugin.memory_len(), 3 * PAGE_SIZE);
    assert_eq!(plugin.allocate(8), Ok(0));
}
