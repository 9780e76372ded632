use i18n_greeter::binder::Convention;
use i18n_greeter::driver::{greet_through, Greeting};
use i18n_greeter::error::HostError;
use i18n_greeter::generated::GeneratedInstance;
use i18n_greeter::plugin::{PluginInstance, PluginModule};
use i18n_greeter::registry::{CapabilityRegistry, HostFunction};

/// The core module of the English greeter with the canonical ABI: strings
/// are a pointer and a length, results come back through a return area, and
/// the host allocates through `realloc`.
const CORE: &str = r#"
  (core module $m
    (import "host" "hour" (func $hour (result i32)))
    (memory (export "memory") 1)
    (global $next (mut i32) (i32.const 64))
    (data $english "English")
    (data $morning "Good morning, ")
    (data $afternoon "Good afternoon, ")
    (data $evening "Good evening, ")
    (func $alloc (param $size i32) (result i32)
      (local $at i32)
      (local.set $at (global.get $next))
      (global.set $next
        (i32.and
          (i32.add (i32.add (local.get $at) (local.get $size)) (i32.const 3))
          (i32.const -4)))
      (block $done
        (loop $more
          (br_if $done
            (i32.le_u (global.get $next) (i32.mul (memory.size) (i32.const 65536))))
          (if (i32.eq (memory.grow (i32.const 1)) (i32.const -1)) (then unreachable))
          (br $more)))
      (local.get $at))
    (func (export "realloc") (param i32 i32 i32 i32) (result i32)
      (call $alloc (local.get 3)))
    (func $pair (param $ptr i32) (param $len i32) (result i32)
      (local $ret i32)
      (local.set $ret (call $alloc (i32.const 8)))
      (i32.store (local.get $ret) (local.get $ptr))
      (i32.store offset=4 (local.get $ret) (local.get $len))
      (local.get $ret))
    (func (export "language") (result i32)
      (local $text i32)
      (local.set $text (call $alloc (i32.const 7)))
      (memory.init $english (local.get $text) (i32.const 0) (i32.const 7))
      (call $pair (local.get $text) (i32.const 7)))
    (func (export "greet") (param $ptr i32) (param $len i32) (result i32)
      (local $hour i32) (local $dst i32) (local $n i32)
      (local.set $hour (call $hour))
      (local.set $dst (call $alloc (i32.add (local.get $len) (i32.const 17))))
      (if (i32.lt_u (local.get $hour) (i32.const 12))
        (then
          (memory.init $morning (local.get $dst) (i32.const 0) (i32.const 14))
          (local.set $n (i32.const 14)))
        (else
          (if (i32.lt_u (local.get $hour) (i32.const 18))
            (then
              (memory.init $afternoon (local.get $dst) (i32.const 0) (i32.const 16))
              (local.set $n (i32.const 16)))
            (else
              (memory.init $evening (local.get $dst) (i32.const 0) (i32.const 14))
              (local.set $n (i32.const 14))))))
      (memory.copy
        (i32.add (local.get $dst) (local.get $n)) (local.get $ptr) (local.get $len))
      (i32.store8
        (i32.add (i32.add (local.get $dst) (local.get $n)) (local.get $len))
        (i32.const 33))
      (call $pair
        (local.get $dst)
        (i32.add (i32.add (local.get $n) (local.get $len)) (i32.const 1)))))
"#;

fn component(exports: &str) -> Vec<u8> {
    let text = format!(
        r#"(component
             (import "hour" (func $hour (result u32)))
             (core func $hour_lowered (canon lower (func $hour)))
             {CORE}
             (core instance $i (instantiate $m
               (with "host" (instance (export "hour" (func $hour_lowered))))))
             (alias core export $i "memory" (core memory $memory))
             (alias core export $i "realloc" (core func $realloc))
             (alias core export $i "language" (core func $core_language))
             (alias core export $i "greet" (core func $core_greet))
             (func $language (result string)
               (canon lift (core func $core_language)
                 (memory $memory) (realloc (core func $realloc))))
             (func $greet (param "name" string) (result string)
               (canon lift (core func $core_greet)
                 (memory $memory) (realloc (core func $realloc))))
             {exports})"#
    );
    wat::parse_str(text).unwrap()
}

fn english_component() -> Vec<u8> {
    component(
        r#"(instance $greeter
             (export "language" (func $language))
             (export "greet" (func $greet)))
           (export "greeter" (instance $greeter))"#,
    )
}

/// A module of the raw-pointer convention that answers "Deutsch" and
/// "Hallo, <name>!".
const GERMAN: &str = r#"
(module
  (memory (export "memory") 1)
  (data $deutsch "Deutsch")
  (data $hallo "Hallo, ")
  (func (export "language") (param $out i32)
    (memory.init $deutsch
      (i32.add (local.get $out) (i32.const 8)) (i32.const 0) (i32.const 7))
    (i32.store (local.get $out) (i32.add (local.get $out) (i32.const 8)))
    (i32.store offset=4 (local.get $out) (i32.const 7)))
  (func (export "greet") (param $out i32) (param $ptr i32) (param $len i32)
    (local $dst i32)
    (local.set $dst (i32.add (local.get $ptr) (local.get $len)))
    (memory.init $hallo (local.get $dst) (i32.const 0) (i32.const 7))
    (memory.copy
      (i32.add (local.get $dst) (i32.const 7)) (local.get $ptr) (local.get $len))
    (i32.store8
      (i32.add (i32.add (local.get $dst) (i32.const 7)) (local.get $len))
      (i32.const 33))
    (i32.store (local.get $out) (local.get $dst))
    (i32.store offset=4 (local.get $out) (i32.add (local.get $len) (i32.const 8)))))
"#;

fn hour(value: i32) -> CapabilityRegistry {
    let mut registry = CapabilityRegistry::empty();
    registry.register("hour", HostFunction::Fixed(value));
    registry
}

fn module(name: &str, bytes: Vec<u8>) -> PluginModule {
    PluginModule { name: name.to_string(), bytes }
}

fn fault<T>(r: Result<T, HostError>) -> HostError {
    match r {
        Ok(_) => panic!("expected a failure"),
        Err(e) => e,
    }
}

#[test]
fn component_reports_its_language() {
    let mut plugin = GeneratedInstance::from_component(&english_component(), &hour(9)).unwrap();
    assert_eq!(plugin.call_language(), Ok("English".to_string()));
    assert_eq!(plugin.call_language(), Ok("English".to_string()));
}

#[test]
fn component_greets_by_the_hour_of_the_host() {
    for (at, expected) in [
        (9, "Good morning, Ada!"),
        (12, "Good afternoon, Ada!"),
        (14, "Good afternoon, Ada!"),
        (18, "Good evening, Ada!"),
        (20, "Good evening, Ada!"),
    ] {
        let mut plugin = GeneratedInstance::from_component(&english_component(), &hour(at)).unwrap();
        assert_eq!(plugin.call_greet("Ada"), Ok(expected.to_string()));
    }
}

#[test]
fn component_takes_consecutive_and_large_names() {
    let mut plugin = GeneratedInstance::from_component(&english_component(), &hour(9)).unwrap();
    assert_eq!(plugin.call_greet("Bartholomew"), Ok("Good morning, Bartholomew!".to_string()));
    assert_eq!(plugin.call_greet("Zoë"), Ok("Good morning, Zoë!".to_string()));
    let name = "x".repeat(100_000);
    assert_eq!(plugin.call_greet(&name), Ok(format!("Good morning, {name}!")));
}

#[test]
fn component_without_the_capability_is_unsatisfied() {
    let made = GeneratedInstance::from_component(&english_component(), &CapabilityRegistry::empty());
    assert_eq!(fault(made), HostError::UnsatisfiedImport { name: "hour".to_string() });
}

#[test]
fn component_lacking_greet_fails_binding() {
    let bytes = component(
        r#"(instance $greeter (export "language" (func $language)))
           (export "greeter" (instance $greeter))"#,
    );
    let made = GeneratedInstance::from_component(&bytes, &hour(9));
    assert_eq!(fault(made), HostError::Binding { export: "greet".to_string() });
}

#[test]
fn component_lacking_the_greeter_fails_binding_on_language() {
    let bytes = component(r#"(export "language" (func $language))"#);
    let made = GeneratedInstance::from_component(&bytes, &hour(9));
    assert_eq!(fault(made), HostError::Binding { export: "language".to_string() });
}

#[test]
fn component_with_a_mistyped_greet_fails_binding() {
    let bytes = component(
        r#"(instance $greeter
             (export "language" (func $language))
             (export "greet" (func $language)))
           (export "greeter" (instance $greeter))"#,
    );
    let made = GeneratedInstance::from_component(&bytes, &hour(9));
    assert_eq!(fault(made), HostError::Binding { export: "greet".to_string() });
}

#[test]
fn bytes_of_a_module_are_no_component() {
    let made = GeneratedInstance::from_component(&wat::parse_str(GERMAN).unwrap(), &hour(9));
    assert_eq!(fault(made), HostError::Load);
}

#[test]
fn convention_is_read_off_the_preamble() {
    assert_eq!(
        Convention::of_binary(&wat::parse_str(GERMAN).unwrap()),
        Some(Convention::RawPointer)
    );
    assert_eq!(Convention::of_binary(&english_component()), Some(Convention::GeneratedBinding));
    assert_eq!(Convention::of_binary(b"\0asm\x01\0\0\0"), Some(Convention::RawPointer));
    assert_eq!(Convention::of_binary(b"\0asm\x0d\0\x01\0"), Some(Convention::GeneratedBinding));
    assert_eq!(Convention::of_binary(b"\0asm\x02\0\0\0"), None);
    assert_eq!(Convention::of_binary(b"\0asm\x0d\0\0\0"), None);
    assert_eq!(Convention::of_binary(b"\0asm\x01\0\0"), None);
    assert_eq!(Convention::of_binary(b"\x7fELF\x01\0\0\0"), None);
    assert_eq!(Convention::of_binary(b""), None);
}

#[test]
fn one_interface_serves_both_conventions() {
    let plugins = vec![
        module("german.wasm", wat::parse_str(GERMAN).unwrap()),
        module("english.wasm", english_component()),
    ];
    let mut seen = Vec::new();
    for plugin in plugins {
        let mut instance = plugin.into_instance(&hour(20)).unwrap();
        let language = instance.call_language().unwrap();
        let greeting = instance.call_greet("Ada").unwrap();
        seen.push((instance.convention(), language, greeting));
    }
    assert_eq!(
        seen,
        vec![
            (Convention::RawPointer, "Deutsch".to_string(), "Hallo, Ada!".to_string()),
            (
                Convention::GeneratedBinding,
                "English".to_string(),
                "Good evening, Ada!".to_string()
            ),
        ]
    );
}

#[test]
fn instance_is_bound_under_the_convention_of_its_binary() {
    let raw = module("german.wasm", wat::parse_str(GERMAN).unwrap());
    assert!(matches!(
        raw.into_instance(&CapabilityRegistry::empty()),
        Ok(PluginInstance::RawPointer(_))
    ));
    let generated = module("english.wasm", english_component());
    assert!(matches!(
        generated.into_instance(&hour(9)),
        Ok(PluginInstance::GeneratedBinding(_))
    ));
}

#[test]
fn driver_takes_a_plugin_from_bytes_to_greeting() {
    let answered = greet_through(module("english.wasm", english_component()), "Ada", &hour(9));
    assert_eq!(
        answered,
        Ok(Greeting {
            language: "English".to_string(),
            greeting: "Good morning, Ada!".to_string()
        })
    );
    let answered = greet_through(
        module("german.wasm", wat::parse_str(GERMAN).unwrap()),
        "Zoë",
        &CapabilityRegistry::empty(),
    );
    assert_eq!(
        answered,
        Ok(Greeting { language: "Deutsch".to_string(), greeting: "Hallo, Zoë!".to_string() })
    );
}

#[test]
fn driver_stops_at_the_first_failure() {
    let registry = CapabilityRegistry::empty();
    assert_eq!(
        greet_through(module("notes.txt", b"not a plugin".to_vec()), "Ada", &registry),
        Err(HostError::Load)
    );
    assert_eq!(
        greet_through(module("cut.wasm", b"\0asm\x01\0\0\0\x01".to_vec()), "Ada", &registry),
        Err(HostError::Load)
    );
    assert_eq!(
        greet_through(module("english.wasm", english_component()), "Ada", &registry),
        Err(HostError::UnsatisfiedImport { name: "hour".to_string() })
    );
    let silent = wat::parse_str(
        r#"(module
             (memory (export "memory") 1)
             (func (export "language") (param i32))
             (func (export "greet") (param i32 i32 i32) unreachable))"#,
    )
    .unwrap();
    assert_eq!(
        greet_through(module("silent.wasm", silent), "Ada", &registry),
        Err(HostError::Engine)
    );
}
