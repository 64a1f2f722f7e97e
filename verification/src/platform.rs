//! Per-platform facts the hooks are installed from: which module holds the hooked
//! function and where to look for it, the signature that locates the function in the
//! module, where the console's debug-log flag sits, and the null device.
use vstd::prelude::*;

verus! {

/// Operating systems the module runs on.
#[derive(PartialEq, Eq, Structural, Clone, Copy, Debug)]
pub enum Os {
    Windows,
    Linux,
}

/// Pointer widths the module is built for.
#[derive(PartialEq, Eq, Structural, Clone, Copy, Debug)]
pub enum PointerWidth {
    Bits32,
    Bits64,
}

/// A build target: operating system and pointer width.
#[derive(PartialEq, Eq, Structural, Clone, Copy, Debug)]
pub struct Platform {
    pub os: Os,
    pub width: PointerWidth,
}

/// Signature of the engine's `Con_DebugLog` in 64-bit Windows builds.
pub const CON_DEBUGLOG_WIN64: &'static str = "48 89 4C 24 ? 48 89 54 24 ? 4C 89 44 24 ? 4C 89 4C 24 ? 53 57 B8 ? ? ? ? E8 ? ? ? ? 48 2B E0 48 8B 05 ? ? ? ? 48 33 C4 48 89 84 24 ? ? ? ? 4C 8B C1 4C 8D 8C 24 ? ? ? ? 48 8D 8C 24 ? ? ? ? BA ? ? ? ? E8 ? ? ? ? E8 ? ? ? ? 48 8B D8 48 8B 38 48 85 FF 75 32 48 8B 0D ? ? ? ? 4C 8D 05 ? ? ? ? 48 83 C1 08 48 8D 15 ? ? ? ? 45 33 C9 4C 8B 11 41 FF 52 10 48 89 03 48 8B F8 48 85 C0 0F 84 ? ? ? ?";

/// Signature of the engine's `Con_DebugLog` in 32-bit Windows builds.
pub const CON_DEBUGLOG_WIN32: &'static str = "55 8B EC B8 ? ? ? ? E8 ? ? ? ? 8D 45 0C 50 FF 75 08 8D 85 ? ? ? ? 68 ? ? ? ? 50 E8 ? ? ? ? A1 ? ? ? ? 83 C4 10 A8 01 75 1F 83 C8 01 C7 05 ? ? ? ? ? ? ? ? 68 ? ? ? ? A3 ? ? ? ? E8 ? ? ? ? 83 C4 04 56 8B 35 ? ? ? ? 85 F6 75 29 8B 0D ? ? ? ? 83 C1 04 56 68 ? ? ? ? 68 ? ? ? ? 8B 01 FF 50 08 8B F0 89 35 ? ? ? ? 85 F6 0F 84 ? ? ? ?";

/// Signature of the engine's `Con_DebugLog` in 64-bit Linux builds.
pub const CON_DEBUGLOG_LINUX64: &'static str = "55 48 89 E5 41 57 41 56 41 55 41 54 53 48 81 EC ? ? ? ? 84 C0 48 89 B5 ? ? ? ? 48 89 95 ? ? ? ? 48 89 8D ? ? ? ? 4C 89 85 ? ? ? ? 4C 89 8D ? ? ? ? 74 29 0F 29 85 ? ? ? ? 0F 29 8D ? ? ? ? 0F 29 95 ? ? ? ? 0F 29 5D 80 0F 29 65 90 0F 29 6D A0 0F 29 75 B0 0F 29 7D C0 64 48 8B 04 25 ? ? ? ? 48 89 85 ? ? ? ? 31 C0 48 8D 9D ? ? ? ? 48 89 FA 48 8D 45 10 BE ? ? ? ? 48 89 DF 48 8D 8D ? ? ? ? 48 89 85 ? ? ? ? 48 8D 85 ? ? ? ? C7 85 ? ? ? ? ? ? ? ? C7 85 ? ? ? ? ? ? ? ? 48 89 85 ? ? ? ? E8 ? ? ? ? E8 ? ? ? ? 48 89 C7 E8 ? ? ? ? 48 85 C0 49 89 C4 0F 84 ? ? ? ? 80 3D ? ? ? ? ? 0F 85 ? ? ? ? 4C 8B 2D ? ? ? ? 48 8B 05 ? ? ? ? 48 8D 3D ? ? ? ? FF 90 ? ? ? ? 85 C0 74 26 80 3D ? ? ? ? ? 0F 85 ? ? ? ? 48 8D 35 ? ? ? ? 48 89 DF E8 ? ? ? ? 48 85 C0 0F 95 05 ? ? ? ? 49 8B 4D 00 48 89 DA 8B 02 48 83 C2 04 44 8D 80 ? ? ? ? F7 D0 41 21 C0 41 81 E0 ? ? ? ? 74 E5 48 8D 79 08 44 89 C0 48 89 DE C1 E8 10 41 F7 C0 ? ? ? ? 44 0F 44 C0 48 8D 42 02 48 0F 44 D0 48 8B 41 08 45 00 C0 4C 89 E1 48 83 DA 03 48 29 DA FF 50 08 49 8B 45 00 4C 89 E6 48 8D 78 08 48 8B 40 08 FF 50 40 48 8B 85 ? ? ? ? 64 48 33 04 25 ? ? ? ? 0F 85 ? ? ? ? 48 81 C4 ? ? ? ? 5B 41 5C 41 5D 41 5E 41 5F 5D C3 0F 1F 40 00 E8 ? ? ? ? 48 89 C7 E8 ? ? ? ? 4C 8B 2D ? ? ? ? 48 85 C0 49 89 C6 0F 84 ? ? ? ? 4D 8B 7D 00 48 89 C7 E8 ? ? ? ? 4C 89 E1 4C 89 F6 89 C2 4D 8B 47 08 49 8D 7F 08 41 FF 50 08 E9 ? ? ? ? 0F 1F 00 48 8D BD ? ? ? ? E8 ? ? ? ? 8B 85 ? ? ? ? BE ? ? ? ? 44 8B 85 ? ? ? ? 48 8D 15 ? ? ? ? 48 8D 3D ? ? ? ? 8D 48 01 8B 85 ? ? ? ? 89 44 24 10 8B 85 ? ? ? ? 89 44 24 08 8B 85 ? ? ? ? 89 04 24 8B 85 ? ? ? ? 44 8D 88 ? ? ? ? 31 C0 E8 ? ? ? ? 4D 8B 45 00 48 8D 35 ? ? ? ? 48 89 F2 8B 0A 48 83 C2 04 8D 81 ? ? ? ? F7 D1 21 C8 25 ? ? ? ? 74 E9 49 8D 78 08 89 C1 C1 E9 10 A9 ? ? ? ? 0F 44 C1 48 8D 4A 02 48 0F 44 D1 00 C0 49 8B 40 08 4C 89 E1 48 83 DA 03 48 29 F2 48 8D 35 ? ? ? ? FF 50 08 49 8B 45 00 4C 89 E1 48 8D 35 ? ? ? ? BA ? ? ? ? 48 8D 78 08 48 8B 40 08 FF 50 08 E9 ? ? ? ? E8 ? ? ? ?";

/// Signature of the engine's `Con_DebugLog` in 32-bit Linux builds.
pub const CON_DEBUGLOG_LINUX32: &'static str = "55 89 E5 57 56 53 8D 9D ? ? ? ? 81 EC ? ? ? ? 65 A1 ? ? ? ? 89 45 E4 31 C0 8D 45 0C C7 44 24 ? ? ? ? ? 89 44 24 0C 8B 45 08 89 1C 24 89 44 24 08 E8 ? ? ? ? E8 ? ? ? ? 89 04 24 E8 ? ? ? ? 85 C0 89 C6 0F 84 ? ? ? ? 80 3D ? ? ? ? ? 0F 85 ? ? ? ?";

/// Signature of the dedicated server's `CTextConsoleUnix::Print` in 64-bit builds.
pub const CONSOLE_PRINT_LINUX64: &'static str = "55 48 89 E5 41 57 41 56 41 55 41 54 41 89 D4 53 48 89 F3 48 83 EC 08 80 BF ? ? ? ? ? 75 40 41 83 FC 00 0F 84 ? ? ? ? 7E 25 41 8D 44 24 ? 4C 8D 64 03 ? 66 2E 0F 1F 84 00 ? ? ? ? 0F BE 3B 48 83 C3 01 E8 ? ? ? ? 4C 39 E3 75 EF 48 83 C4 08 5B 41 5C 41 5D 41 5E 41 5F 5D C3 4C 8B 2D ? ? ? ? 48 8D 15 ? ? ? ? 31 C9 48 8D 35 ? ? ? ? 49 8B 45 00 48 8D 78 08 48 8B 40 08 FF 50 10 48 85 C0 49 89 C6 74 92 45 85 E4 74 5D 49 8B 45 00 4C 89 F1 44 89 E2 48 89 DE 48 8D 78 08 48 8B 40 08 FF 50 08";

/// Signature of the dedicated server's `CTextConsoleUnix::Print` in 32-bit builds.
pub const CONSOLE_PRINT_LINUX32: &'static str = "55 89 E5 57 56 53 83 EC 2C 8B 75 0C 8B 5D 08 89 34 24 E8 ? ? ? ? 85 C0 89 C7 7E 2C 80 7B 05 00 75 35 8B 43 08 89 7C 24 08 C7 44 24 ? ? ? ? ? 89 34 24 89 44 24 0C E8 ? ? ? ? 8B 43 08 3B 05 ? ? ? ? 74 7F";

/// The modules to try, in order, for one library, and the message to fail with when
/// none of them loads.
pub struct ModuleCandidates {
    pub paths: Vec<&'static str>,
    pub missing: &'static str,
}

/// The paths, as character sequences.
pub open spec fn paths_view(paths: Seq<&'static str>) -> Seq<Seq<char>> {
    paths.map_values(|s: &'static str| s@)
}

/// Where the engine library is looked for, in order.
pub open spec fn engine_paths(p: Platform) -> Seq<Seq<char>> {
    match (p.os, p.width) {
        (Os::Windows, PointerWidth::Bits64) => seq!["bin/win64/engine.dll"@],
        (Os::Windows, PointerWidth::Bits32) => seq!["bin/engine.dll"@],
        (Os::Linux, PointerWidth::Bits64) => seq!["bin/linux64/engine.so"@],
        (Os::Linux, PointerWidth::Bits32) => seq!["bin/engine_srv.so"@, "bin/linux32/engine.so"@],
    }
}

/// The message to fail with when the engine library is not found.
pub open spec fn engine_missing(p: Platform) -> Seq<char> {
    match (p.os, p.width) {
        (Os::Windows, _) => "Failed to load engine.dll"@,
        (Os::Linux, PointerWidth::Bits64) => "Failed to find engine.so"@,
        (Os::Linux, PointerWidth::Bits32) => "Failed to find engine.so or engine_srv.so"@,
    }
}

/// Where the engine library is looked for, and the message for when it is not found.
pub fn engine_module(p: Platform) -> (m: ModuleCandidates)
    ensures
        paths_view(m.paths@) == engine_paths(p),
        m.missing@ == engine_missing(p),
{
    let mut paths: Vec<&'static str> = Vec::new();
    let missing: &'static str;
    match (p.os, p.width) {
        (Os::Windows, PointerWidth::Bits64) => {
            paths.push("bin/win64/engine.dll");
            missing = "Failed to load engine.dll";
        },
        (Os::Windows, PointerWidth::Bits32) => {
            paths.push("bin/engine.dll");
            missing = "Failed to load engine.dll";
        },
        (Os::Linux, PointerWidth::Bits64) => {
            paths.push("bin/linux64/engine.so");
            missing = "Failed to find engine.so";
        },
        (Os::Linux, PointerWidth::Bits32) => {
            paths.push("bin/engine_srv.so");
            paths.push("bin/linux32/engine.so");
            missing = "Failed to find engine.so or engine_srv.so";
        },
    }
    assert(paths_view(paths@) =~= engine_paths(p));
    ModuleCandidates { paths, missing }
}

/// Where the dedicated-server library, which holds the Linux text console, is looked
/// for, in order; Windows builds do not hook it.
pub open spec fn dedicated_paths(width: PointerWidth) -> Seq<Seq<char>> {
    match width {
        PointerWidth::Bits64 => seq!["bin/linux64/dedicated.so"@],
        PointerWidth::Bits32 => seq!["bin/dedicated_srv.so"@, "bin/linux32/dedicated.so"@],
    }
}

/// The message to fail with when the dedicated-server library is not found.
pub open spec fn dedicated_missing(width: PointerWidth) -> Seq<char> {
    match width {
        PointerWidth::Bits64 => "Failed to find dedicated.so"@,
        PointerWidth::Bits32 => "Failed to find dedicated.so or dedicated_srv.so"@,
    }
}

/// Where the Linux dedicated-server library is looked for, and the message for when it
/// is not found.
pub fn dedicated_module(width: PointerWidth) -> (m: ModuleCandidates)
    ensures
        paths_view(m.paths@) == dedicated_paths(width),
        m.missing@ == dedicated_missing(width),
{
    let mut paths: Vec<&'static str> = Vec::new();
    let missing: &'static str;
    match width {
        PointerWidth::Bits64 => {
            paths.push("bin/linux64/dedicated.so");
            missing = "Failed to find dedicated.so";
        },
        PointerWidth::Bits32 => {
            paths.push("bin/dedicated_srv.so");
            paths.push("bin/linux32/dedicated.so");
            missing = "Failed to find dedicated.so or dedicated_srv.so";
        },
    }
    assert(paths_view(paths@) =~= dedicated_paths(width));
    ModuleCandidates { paths, missing }
}

/// The signature of `Con_DebugLog` in the engine library of platform `p`.
pub open spec fn con_debuglog_signature_spec(p: Platform) -> &'static str {
    match (p.os, p.width) {
        (Os::Windows, PointerWidth::Bits64) => CON_DEBUGLOG_WIN64,
        (Os::Windows, PointerWidth::Bits32) => CON_DEBUGLOG_WIN32,
        (Os::Linux, PointerWidth::Bits64) => CON_DEBUGLOG_LINUX64,
        (Os::Linux, PointerWidth::Bits32) => CON_DEBUGLOG_LINUX32,
    }
}

/// The signature of `Con_DebugLog` in the engine library of platform `p`.
pub fn con_debuglog_signature(p: Platform) -> (sig: &'static str)
    ensures
        sig == con_debuglog_signature_spec(p),
{
    match (p.os, p.width) {
        (Os::Windows, PointerWidth::Bits64) => CON_DEBUGLOG_WIN64,
        (Os::Windows, PointerWidth::Bits32) => CON_DEBUGLOG_WIN32,
        (Os::Linux, PointerWidth::Bits64) => CON_DEBUGLOG_LINUX64,
        (Os::Linux, PointerWidth::Bits32) => CON_DEBUGLOG_LINUX32,
    }
}

/// Each build looks for the `Con_DebugLog` of its own platform: the four signatures
/// are pairwise different, and each opens with its platform's function prologue. A
/// 64-bit MSVC build starts by spilling its register arguments (`48 89 4C 24`, mov
/// [rsp+..], rcx), a 64-bit GCC build with `push rbp; mov rbp, rsp` (`55 48 89 E5`),
/// a 32-bit MSVC build with `push ebp; mov ebp, esp` (`55 8B EC`) and a 32-bit GCC
/// build with the same two instructions in GCC's encoding (`55 89 E5`).
pub proof fn law_con_debuglog_signature_per_platform(p: Platform, q: Platform)
    ensures
        p != q ==> con_debuglog_signature_spec(p)@ != con_debuglog_signature_spec(q)@,
        p == (Platform { os: Os::Windows, width: PointerWidth::Bits64 })
            ==> con_debuglog_signature_spec(p)@.take(11) == "48 89 4C 24"@,
        p == (Platform { os: Os::Linux, width: PointerWidth::Bits64 })
            ==> con_debuglog_signature_spec(p)@.take(11) == "55 48 89 E5"@,
        p == (Platform { os: Os::Windows, width: PointerWidth::Bits32 })
            ==> con_debuglog_signature_spec(p)@.take(8) == "55 8B EC"@,
        p == (Platform { os: Os::Linux, width: PointerWidth::Bits32 })
            ==> con_debuglog_signature_spec(p)@.take(8) == "55 89 E5"@,
{
    reveal_strlit("48 89 4C 24 ? 48 89 54 24 ? 4C 89 44 24 ? 4C 89 4C 24 ? 53 57 B8 ? ? ? ? E8 ? ? ? ? 48 2B E0 48 8B 05 ? ? ? ? 48 33 C4 48 89 84 24 ? ? ? ? 4C 8B C1 4C 8D 8C 24 ? ? ? ? 48 8D 8C 24 ? ? ? ? BA ? ? ? ? E8 ? ? ? ? E8 ? ? ? ? 48 8B D8 48 8B 38 48 85 FF 75 32 48 8B 0D ? ? ? ? 4C 8D 05 ? ? ? ? 48 83 C1 08 48 8D 15 ? ? ? ? 45 33 C9 4C 8B 11 41 FF 52 10 48 89 03 48 8B F8 48 85 C0 0F 84 ? ? ? ?");
    reveal_strlit("55 8B EC B8 ? ? ? ? E8 ? ? ? ? 8D 45 0C 50 FF 75 08 8D 85 ? ? ? ? 68 ? ? ? ? 50 E8 ? ? ? ? A1 ? ? ? ? 83 C4 10 A8 01 75 1F 83 C8 01 C7 05 ? ? ? ? ? ? ? ? 68 ? ? ? ? A3 ? ? ? ? E8 ? ? ? ? 83 C4 04 56 8B 35 ? ? ? ? 85 F6 75 29 8B 0D ? ? ? ? 83 C1 04 56 68 ? ? ? ? 68 ? ? ? ? 8B 01 FF 50 08 8B F0 89 35 ? ? ? ? 85 F6 0F 84 ? ? ? ?");
    reveal_strlit("55 48 89 E5 41 57 41 56 41 55 41 54 53 48 81 EC ? ? ? ? 84 C0 48 89 B5 ? ? ? ? 48 89 95 ? ? ? ? 48 89 8D ? ? ? ? 4C 89 85 ? ? ? ? 4C 89 8D ? ? ? ? 74 29 0F 29 85 ? ? ? ? 0F 29 8D ? ? ? ? 0F 29 95 ? ? ? ? 0F 29 5D 80 0F 29 65 90 0F 29 6D A0 0F 29 75 B0 0F 29 7D C0 64 48 8B 04 25 ? ? ? ? 48 89 85 ? ? ? ? 31 C0 48 8D 9D ? ? ? ? 48 89 FA 48 8D 45 10 BE ? ? ? ? 48 89 DF 48 8D 8D ? ? ? ? 48 89 85 ? ? ? ? 48 8D 85 ? ? ? ? C7 85 ? ? ? ? ? ? ? ? C7 85 ? ? ? ? ? ? ? ? 48 89 85 ? ? ? ? E8 ? ? ? ? E8 ? ? ? ? 48 89 C7 E8 ? ? ? ? 48 85 C0 49 89 C4 0F 84 ? ? ? ? 80 3D ? ? ? ? ? 0F 85 ? ? ? ? 4C 8B 2D ? ? ? ? 48 8B 05 ? ? ? ? 48 8D 3D ? ? ? ? FF 90 ? ? ? ? 85 C0 74 26 80 3D ? ? ? ? ? 0F 85 ? ? ? ? 48 8D 35 ? ? ? ? 48 89 DF E8 ? ? ? ? 48 85 C0 0F 95 05 ? ? ? ? 49 8B 4D 00 48 89 DA 8B 02 48 83 C2 04 44 8D 80 ? ? ? ? F7 D0 41 21 C0 41 81 E0 ? ? ? ? 74 E5 48 8D 79 08 44 89 C0 48 89 DE C1 E8 10 41 F7 C0 ? ? ? ? 44 0F 44 C0 48 8D 42 02 48 0F 44 D0 48 8B 41 08 45 00 C0 4C 89 E1 48 83 DA 03 48 29 DA FF 50 08 49 8B 45 00 4C 89 E6 48 8D 78 08 48 8B 40 08 FF 50 40 48 8B 85 ? ? ? ? 64 48 33 04 25 ? ? ? ? 0F 85 ? ? ? ? 48 81 C4 ? ? ? ? 5B 41 5C 41 5D 41 5E 41 5F 5D C3 0F 1F 40 00 E8 ? ? ? ? 48 89 C7 E8 ? ? ? ? 4C 8B 2D ? ? ? ? 48 85 C0 49 89 C6 0F 84 ? ? ? ? 4D 8B 7D 00 48 89 C7 E8 ? ? ? ? 4C 89 E1 4C 89 F6 89 C2 4D 8B 47 08 49 8D 7F 08 41 FF 50 08 E9 ? ? ? ? 0F 1F 00 48 8D BD ? ? ? ? E8 ? ? ? ? 8B 85 ? ? ? ? BE ? ? ? ? 44 8B 85 ? ? ? ? 48 8D 15 ? ? ? ? 48 8D 3D ? ? ? ? 8D 48 01 8B 85 ? ? ? ? 89 44 24 10 8B 85 ? ? ? ? 89 44 24 08 8B 85 ? ? ? ? 89 04 24 8B 85 ? ? ? ? 44 8D 88 ? ? ? ? 31 C0 E8 ? ? ? ? 4D 8B 45 00 48 8D 35 ? ? ? ? 48 89 F2 8B 0A 48 83 C2 04 8D 81 ? ? ? ? F7 D1 21 C8 25 ? ? ? ? 74 E9 49 8D 78 08 89 C1 C1 E9 10 A9 ? ? ? ? 0F 44 C1 48 8D 4A 02 48 0F 44 D1 00 C0 49 8B 40 08 4C 89 E1 48 83 DA 03 48 29 F2 48 8D 35 ? ? ? ? FF 50 08 49 8B 45 00 4C 89 E1 48 8D 35 ? ? ? ? BA ? ? ? ? 48 8D 78 08 48 8B 40 08 FF 50 08 E9 ? ? ? ? E8 ? ? ? ?");
    reveal_strlit("55 89 E5 57 56 53 8D 9D ? ? ? ? 81 EC ? ? ? ? 65 A1 ? ? ? ? 89 45 E4 31 C0 8D 45 0C C7 44 24 ? ? ? ? ? 89 44 24 0C 8B 45 08 89 1C 24 89 44 24 08 E8 ? ? ? ? E8 ? ? ? ? 89 04 24 E8 ? ? ? ? 85 C0 89 C6 0F 84 ? ? ? ? 80 3D ? ? ? ? ? 0F 85 ? ? ? ?");
    reveal_strlit("48 89 4C 24");
    reveal_strlit("55 48 89 E5");
    reveal_strlit("55 8B EC");
    reveal_strlit("55 89 E5");
    let w64 = con_debuglog_signature_spec(Platform { os: Os::Windows, width: PointerWidth::Bits64 })@;
    let w32 = con_debuglog_signature_spec(Platform { os: Os::Windows, width: PointerWidth::Bits32 })@;
    let l64 = con_debuglog_signature_spec(Platform { os: Os::Linux, width: PointerWidth::Bits64 })@;
    let l32 = con_debuglog_signature_spec(Platform { os: Os::Linux, width: PointerWidth::Bits32 })@;
    assert(w64.take(11) =~= "48 89 4C 24"@);
    assert(l64.take(11) =~= "55 48 89 E5"@);
    assert(w32.take(8) =~= "55 8B EC"@);
    assert(l32.take(8) =~= "55 89 E5"@);
    assert(w64[0] != w32[0] && w64[0] != l64[0] && w64[0] != l32[0]);
    assert(w32[3] != l64[3] && l64[3] != l32[3] && w32[4] != l32[4]);
}

/// The signature of `CTextConsoleUnix::Print` in the Linux dedicated-server library.
pub open spec fn console_print_signature_spec(width: PointerWidth) -> &'static str {
    match width {
        PointerWidth::Bits64 => CONSOLE_PRINT_LINUX64,
        PointerWidth::Bits32 => CONSOLE_PRINT_LINUX32,
    }
}

/// The signature of `CTextConsoleUnix::Print` in the Linux dedicated-server library.
pub fn console_print_signature(width: PointerWidth) -> (sig: &'static str)
    ensures
        sig == console_print_signature_spec(width),
{
    match width {
        PointerWidth::Bits64 => CONSOLE_PRINT_LINUX64,
        PointerWidth::Bits32 => CONSOLE_PRINT_LINUX32,
    }
}

/// Each Linux build looks for the `CTextConsoleUnix::Print` of its own width: the two
/// signatures differ, the 64-bit one opening with `push rbp; mov rbp, rsp`
/// (`55 48 89 E5`) and the 32-bit one with `push ebp; mov ebp, esp` (`55 89 E5`).
pub proof fn law_console_print_signature_per_width(w: PointerWidth, v: PointerWidth)
    ensures
        w != v ==> console_print_signature_spec(w)@ != console_print_signature_spec(v)@,
        w == PointerWidth::Bits64 ==> console_print_signature_spec(w)@.take(11) == "55 48 89 E5"@,
        w == PointerWidth::Bits32 ==> console_print_signature_spec(w)@.take(8) == "55 89 E5"@,
{
    reveal_strlit("55 48 89 E5 41 57 41 56 41 55 41 54 41 89 D4 53 48 89 F3 48 83 EC 08 80 BF ? ? ? ? ? 75 40 41 83 FC 00 0F 84 ? ? ? ? 7E 25 41 8D 44 24 ? 4C 8D 64 03 ? 66 2E 0F 1F 84 00 ? ? ? ? 0F BE 3B 48 83 C3 01 E8 ? ? ? ? 4C 39 E3 75 EF 48 83 C4 08 5B 41 5C 41 5D 41 5E 41 5F 5D C3 4C 8B 2D ? ? ? ? 48 8D 15 ? ? ? ? 31 C9 48 8D 35 ? ? ? ? 49 8B 45 00 48 8D 78 08 48 8B 40 08 FF 50 10 48 85 C0 49 89 C6 74 92 45 85 E4 74 5D 49 8B 45 00 4C 89 F1 44 89 E2 48 89 DE 48 8D 78 08 48 8B 40 08 FF 50 08");
    reveal_strlit("55 89 E5 57 56 53 83 EC 2C 8B 75 0C 8B 5D 08 89 34 24 E8 ? ? ? ? 85 C0 89 C7 7E 2C 80 7B 05 00 75 35 8B 43 08 89 7C 24 08 C7 44 24 ? ? ? ? ? 89 34 24 89 44 24 0C E8 ? ? ? ? 8B 43 08 3B 05 ? ? ? ? 74 7F");
    reveal_strlit("55 48 89 E5");
    reveal_strlit("55 89 E5");
    let p64 = console_print_signature_spec(PointerWidth::Bits64)@;
    let p32 = console_print_signature_spec(PointerWidth::Bits32)@;
    assert(p64.take(11) =~= "55 48 89 E5"@);
    assert(p32.take(8) =~= "55 89 E5"@);
    assert(p64[3] != p32[3]);
}

/// Byte offset of the `m_bConDebug` flag inside a `CTextConsoleUnix` object.
pub open spec fn con_debug_flag_offset_spec(width: PointerWidth) -> usize {
    match width {
        PointerWidth::Bits64 => 8225,
        PointerWidth::Bits32 => 5,
    }
}

/// Byte offset of the `m_bConDebug` flag inside a `CTextConsoleUnix` object: 8225 in
/// 64-bit builds, 5 in 32-bit builds. The hook reads and clears the flag at this one
/// offset only: on a 32-bit server, offset 8225 lies in another member of the object,
/// so no zero is written there.
pub fn con_debug_flag_offset(width: PointerWidth) -> (off: usize)
    ensures
        off == con_debug_flag_offset_spec(width),
{
    match width {
        PointerWidth::Bits64 => 8225,
        PointerWidth::Bits32 => 5,
    }
}

/// The debug-log flag sits at byte 8225 of a 64-bit console object and at byte 5 of a
/// 32-bit one.
pub proof fn law_con_debug_flag_offset(w: PointerWidth)
    ensures
        w == PointerWidth::Bits64 ==> con_debug_flag_offset_spec(w) == 8225,
        w == PointerWidth::Bits32 ==> con_debug_flag_offset_spec(w) == 5,
{
}

/// Where each build looks for its libraries, in order, and what it says when none
/// loads: Windows builds load `engine.dll` (from `bin/win64` in 64-bit builds, from
/// `bin` in 32-bit ones); Linux builds load `engine.so` and `dedicated.so` from
/// `bin/linux64` in 64-bit builds, and in 32-bit builds first try the `_srv` variants
/// in `bin`, then `bin/linux32`.
pub proof fn law_module_candidates(p: Platform)
    ensures
        p == (Platform { os: Os::Windows, width: PointerWidth::Bits64 }) ==> engine_paths(p) =~= seq![
            "bin/win64/engine.dll"@,
        ] && engine_missing(p) == "Failed to load engine.dll"@,
        p == (Platform { os: Os::Windows, width: PointerWidth::Bits32 }) ==> engine_paths(p) =~= seq![
            "bin/engine.dll"@,
        ] && engine_missing(p) == "Failed to load engine.dll"@,
        p == (Platform { os: Os::Linux, width: PointerWidth::Bits64 }) ==> engine_paths(p) =~= seq![
            "bin/linux64/engine.so"@,
        ] && engine_missing(p) == "Failed to find engine.so"@,
        p == (Platform { os: Os::Linux, width: PointerWidth::Bits32 }) ==> engine_paths(p) =~= seq![
            "bin/engine_srv.so"@,
            "bin/linux32/engine.so"@,
        ] && engine_missing(p) == "Failed to find engine.so or engine_srv.so"@,
        p.width == PointerWidth::Bits64 ==> dedicated_paths(p.width) =~= seq![
            "bin/linux64/dedicated.so"@,
        ] && dedicated_missing(p.width) == "Failed to find dedicated.so"@,
        p.width == PointerWidth::Bits32 ==> dedicated_paths(p.width) =~= seq![
            "bin/dedicated_srv.so"@,
            "bin/linux32/dedicated.so"@,
        ] && dedicated_missing(p.width) == "Failed to find dedicated.so or dedicated_srv.so"@,
{
}

/// Standard output is sent to `nul` on Windows and to `/dev/null` on Linux.
pub proof fn law_null_device(os: Os)
    ensures
        os == Os::Windows ==> null_device_spec(os) == "nul"@,
        os == Os::Linux ==> null_device_spec(os) == "/dev/null"@,
{
}

/// The path of the null device, where standard output is sent on Windows.
pub open spec fn null_device_spec(os: Os) -> Seq<char> {
    match os {
        Os::Windows => "nul"@,
        Os::Linux => "/dev/null"@,
    }
}

/// The path of the null device.
pub fn null_device(os: Os) -> (path: &'static str)
    ensures
        path@ == null_device_spec(os),
{
    match os {
        Os::Windows => "nul",
        Os::Linux => "/dev/null",
    }
}

} // verus!
