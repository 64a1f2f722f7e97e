use gmsv_async_stdout::hooks::{HookStage, HookStep, PrintHook};
use gmsv_async_stdout::platform::{
    con_debug_flag_offset, con_debuglog_signature, dedicated_module, engine_module, null_device, Os, Platform,
    PointerWidth, CON_DEBUGLOG_LINUX32, CON_DEBUGLOG_WIN64,
};

#[test]
fn engine_module_candidates() {
    let m = engine_module(Platform { os: Os::Linux, width: PointerWidth::Bits32 });
    assert_eq!(m.paths, vec!["bin/engine_srv.so", "bin/linux32/engine.so"]);
    assert_eq!(m.missing, "Failed to find engine.so or engine_srv.so");
    let m = engine_module(Platform { os: Os::Linux, width: PointerWidth::Bits64 });
    assert_eq!(m.paths, vec!["bin/linux64/engine.so"]);
    assert_eq!(m.missing, "Failed to find engine.so");
    let m = engine_module(Platform { os: Os::Windows, width: PointerWidth::Bits64 });
    assert_eq!(m.paths, vec!["bin/win64/engine.dll"]);
    assert_eq!(m.missing, "Failed to load engine.dll");
    let m = engine_module(Platform { os: Os::Windows, width: PointerWidth::Bits32 });
    assert_eq!(m.paths, vec!["bin/engine.dll"]);
    assert_eq!(m.missing, "Failed to load engine.dll");
}

#[test]
fn dedicated_module_candidates() {
    let m = dedicated_module(PointerWidth::Bits32);
    assert_eq!(m.paths, vec!["bin/dedicated_srv.so", "bin/linux32/dedicated.so"]);
    assert_eq!(m.missing, "Failed to find dedicated.so or dedicated_srv.so");
    let m = dedicated_module(PointerWidth::Bits64);
    assert_eq!(m.paths, vec!["bin/linux64/dedicated.so"]);
    assert_eq!(m.missing, "Failed to find dedicated.so");
}

#[test]
fn signatures_by_platform() {
    assert_eq!(con_debuglog_signature(Platform { os: Os::Windows, width: PointerWidth::Bits64 }), CON_DEBUGLOG_WIN64);
    assert_eq!(con_debuglog_signature(Platform { os: Os::Linux, width: PointerWidth::Bits32 }), CON_DEBUGLOG_LINUX32);
    assert!(CON_DEBUGLOG_WIN64.starts_with("48 89 4C 24 ?"));
}

#[test]
fn flag_offsets_and_null_devices() {
    assert_eq!(con_debug_flag_offset(PointerWidth::Bits64), 8225);
    assert_eq!(con_debug_flag_offset(PointerWidth::Bits32), 5);
    assert_eq!(null_device(Os::Windows), "nul");
    assert_eq!(null_device(Os::Linux), "/dev/null");
}

#[test]
fn print_hook_first_call_then_forwarding() {
    let mut h = PrintHook::new();
    assert_eq!(h.stage(), HookStage::Primary);
    assert_eq!(
        h.on_print(true),
        vec![
            HookStep::ClearConDebugFlag,
            HookStep::InstallSecondary,
            HookStep::Forward,
            HookStep::ClearConDebugFlag,
            HookStep::CallOriginal
        ]
    );
    assert_eq!(h.stage(), HookStage::Secondary);
    assert_eq!(h.on_print(false), vec![HookStep::Forward, HookStep::CallOriginal]);
    assert_eq!(h.stage(), HookStage::Secondary);
}

#[test]
fn print_hook_without_condebug_removes_itself() {
    let mut h = PrintHook::new();
    assert_eq!(h.on_print(false), vec![HookStep::RemoveHook, HookStep::CallOriginal]);
    assert_eq!(h.stage(), HookStage::Removed);
    assert_eq!(h.on_print(true), vec![HookStep::CallOriginal]);
    assert_eq!(h.stage(), HookStage::Removed);
}

#[test]
fn law_print_hook_with_condebug_on_three_calls() {
    let mut h = PrintHook::new();
    let mut all = Vec::new();
    for flag in [true, false, true] {
        all.extend(h.on_print(flag));
    }
    let count = |s: HookStep| all.iter().filter(|&&x| x == s).count();
    assert_eq!(count(HookStep::Forward), 3);
    assert_eq!(count(HookStep::CallOriginal), 3);
    assert_eq!(count(HookStep::InstallSecondary), 1);
    assert_eq!(count(HookStep::RemoveHook), 0);
    assert_eq!(count(HookStep::ClearConDebugFlag), 2);
    assert_eq!(all[0], HookStep::ClearConDebugFlag);
}

#[test]
fn law_print_hook_without_condebug_on_three_calls() {
    let mut h = PrintHook::new();
    let mut all = Vec::new();
    for flag in [false, true, true] {
        all.extend(h.on_print(flag));
    }
    let count = |s: HookStep| all.iter().filter(|&&x| x == s).count();
    assert_eq!(count(HookStep::Forward), 0);
    assert_eq!(count(HookStep::ClearConDebugFlag), 0);
    assert_eq!(count(HookStep::InstallSecondary), 0);
    assert_eq!(count(HookStep::RemoveHook), 1);
    assert_eq!(count(HookStep::CallOriginal), 3);
}
