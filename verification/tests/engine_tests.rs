use bxt_rs::engine::{
    all_engine_pointers, con_print, escape_nul_bytes, prepend_command, EnginePointer, PointerTable,
    POINTER_COUNT,
};
use bxt_rs::pattern::Pattern;

const BASE: u32 = 0x1000_0000;

fn place(memory: &mut [u8], at: usize, text: &str) {
    for (i, token) in text.split(' ').enumerate() {
        memory[at + i] = if token == "??" {
            0xCC
        } else {
            u8::from_str_radix(token, 16).unwrap()
        };
    }
}

fn put_u32(memory: &mut [u8], at: usize, value: u32) {
    memory[at..at + 4].copy_from_slice(&value.to_le_bytes());
}

fn source(p: EnginePointer, index: usize) -> &'static str {
    p.pattern_sources()[index]
}

#[test]
fn every_pattern_text_parses() {
    let mut count = 0;
    for p in all_engine_pointers() {
        for text in p.pattern_sources() {
            assert!(Pattern::parse(text).is_some(), "{:?}: {}", p, text);
            count += 1;
        }
    }
    assert_eq!(count, 44);
}

#[test]
fn pointer_list_is_in_order() {
    let all = all_engine_pointers();
    assert_eq!(all.len(), POINTER_COUNT);
    for (i, p) in all.iter().enumerate() {
        assert_eq!(p.index(), i);
    }
    assert_eq!(all.iter().filter(|p| p.has_hook()).count(), 16);
    assert_eq!(EnginePointer::SysVidFlipScreen.symbol(), "_Z18Sys_VID_FlipScreenv");
    assert_eq!(EnginePointer::ConPrintf.symbol(), "Con_Printf");
    assert!(EnginePointer::KeyEvent.is_listed(false));
    assert!(!EnginePointer::KeyEvent.is_listed(true));
    assert!(!EnginePointer::SvFrame.is_listed(true));
    assert!(!EnginePointer::VFadeAlpha.is_listed(true));
    assert!(EnginePointer::VApplyShake.is_listed(true));
}

#[test]
fn pattern_and_offset_pointers_are_found() {
    let mut memory = vec![0u8; 0x1000];
    place(&mut memory, 0x100, source(EnginePointer::ClGameDirF, 0));
    put_u32(&mut memory, 0x100 + 11, 0xDEAD_BEEF);
    let mut table = PointerTable::new();
    table.find_pointers(BASE, &memory, false);
    assert_eq!(table.get(EnginePointer::ClGameDirF), Some(BASE + 0x100));
    assert_eq!(table.pattern_index(EnginePointer::ClGameDirF), Some(0));
    assert_eq!(table.get(EnginePointer::ComGamedir), Some(0xDEAD_BEEF));
    assert_eq!(table.pattern_index(EnginePointer::ComGamedir), None);
    assert!(!table.is_set(EnginePointer::ConPrintf));
}

#[test]
fn second_build_pattern_selects_second_build_offsets() {
    let mut memory = vec![0u8; 0x1000];
    let at = 0x200;
    place(&mut memory, at, source(EnginePointer::HostNextDemo, 1));
    put_u32(&mut memory, at + 1, 0x1234_5678);
    put_u32(&mut memory, at + 137, 0x40);
    let mut table = PointerTable::new();
    table.find_pointers(BASE, &memory, false);
    assert_eq!(table.pattern_index(EnginePointer::HostNextDemo), Some(1));
    assert_eq!(table.get(EnginePointer::ClsDemos), Some(0x1234_5678));
    let call_site = BASE + at as u32 + 137;
    assert_eq!(table.get(EnginePointer::CbufInsertText), Some(call_site + 4 + 0x40));
}

#[test]
fn relative_call_backwards_wraps() {
    let mut memory = vec![0u8; 0x1000];
    let at = 0x300;
    place(&mut memory, at, source(EnginePointer::HostTellF, 0));
    put_u32(&mut memory, at + 28, 0xFFFF_FFF0);
    put_u32(&mut memory, at + 145, 0x10);
    let mut table = PointerTable::new();
    table.find_pointers(BASE, &memory, false);
    let site = BASE + at as u32;
    assert_eq!(table.get(EnginePointer::CmdArgc), Some(site + 28 + 4 - 0x10));
    assert_eq!(table.get(EnginePointer::CmdArgv), Some(site + 145 + 4 + 0x10));
}

#[test]
fn sv_frame_takes_precedence_for_frametime() {
    let mut memory = vec![0u8; 0x1000];
    place(&mut memory, 0x400, source(EnginePointer::HostFilterTime, 0));
    put_u32(&mut memory, 0x400 + 64, 0xAAAA_0000);
    put_u32(&mut memory, 0x400 + 70, 0xBBBB_0000);
    place(&mut memory, 0x800, source(EnginePointer::SvFrame, 0));
    put_u32(&mut memory, 0x800 + 1, 0xCCCC_0000);
    put_u32(&mut memory, 0x800 + 11, 0xDDDD_0000);

    let mut table = PointerTable::new();
    table.find_pointers(BASE, &memory, false);
    assert_eq!(table.get(EnginePointer::HostFrametime), Some(0xDDDD_0000));
    assert_eq!(table.get(EnginePointer::Realtime), Some(0xBBBB_0000));
    assert_eq!(table.get(EnginePointer::Sv), Some(0xCCCC_0000));

    // Without SV_Frame in the list, the frame time comes from Host_FilterTime.
    let mut compat = PointerTable::new();
    compat.find_pointers(BASE, &memory, true);
    assert!(!compat.is_set(EnginePointer::SvFrame));
    assert_eq!(compat.get(EnginePointer::HostFrametime), Some(0xAAAA_0000));
    assert_eq!(compat.get(EnginePointer::Sv), None);
}

#[test]
fn pointer_found_by_pattern_is_not_replaced_by_call_target() {
    let mut memory = vec![0u8; 0x1000];
    place(&mut memory, 0x100, source(EnginePointer::HostInitializeGameDll, 0));
    put_u32(&mut memory, 0x100 + 69, 0x500);
    put_u32(&mut memory, 0x100 + 75, 0x7777_0000);
    place(&mut memory, 0x600, source(EnginePointer::LoadEntityDlls, 0));

    let mut table = PointerTable::new();
    table.find_pointers(BASE, &memory, false);
    assert_eq!(table.get(EnginePointer::LoadEntityDlls), Some(BASE + 0x600));
    assert_eq!(table.pattern_index(EnginePointer::LoadEntityDlls), Some(0));
    assert_eq!(table.get(EnginePointer::GEntityInterface), Some(0x7777_0000));

    // Without its own pattern, LoadEntityDLLs is the target of the call.
    place(&mut memory, 0x600, "00 00 00 00 00 00 00 00");
    let mut table = PointerTable::new();
    table.find_pointers(BASE, &memory, false);
    let site = BASE + 0x100 + 69;
    assert_eq!(table.get(EnginePointer::LoadEntityDlls), Some(site + 4 + 0x500));
    assert_eq!(table.pattern_index(EnginePointer::LoadEntityDlls), None);
}

#[test]
fn reads_outside_the_image_or_of_null_find_nothing() {
    let mut memory = vec![0u8; 0x100];
    let text = source(EnginePointer::HostValidSave, 0);
    let at = 0x100 - 14;
    place(&mut memory, at, text);
    let mut table = PointerTable::new();
    table.find_pointers(BASE, &memory, false);
    assert_eq!(table.get(EnginePointer::HostValidSave), Some(BASE + at as u32));
    // sv lies at +19 and cls at +69, both past the end of the image.
    assert_eq!(table.get(EnginePointer::Sv), None);
    assert_eq!(table.get(EnginePointer::Cls), None);

    let mut memory = vec![0u8; 0x1000];
    place(&mut memory, 0x100, source(EnginePointer::ClGameDirF, 0));
    put_u32(&mut memory, 0x100 + 11, 0);
    let mut table = PointerTable::new();
    table.find_pointers(BASE, &memory, false);
    assert!(table.is_set(EnginePointer::ClGameDirF));
    assert_eq!(table.get(EnginePointer::ComGamedir), None);
}

#[test]
fn hooks_are_installed_and_removed_in_order() {
    let mut memory = vec![0u8; 0x1000];
    place(&mut memory, 0x100, source(EnginePointer::ClDisconnect, 0));
    place(&mut memory, 0x200, source(EnginePointer::HostNextDemo, 0));
    place(&mut memory, 0x400, source(EnginePointer::ClGameDirF, 0));
    let mut table = PointerTable::new();
    table.find_pointers(BASE, &memory, false);

    let hooks = table.hooks_to_install(false);
    assert_eq!(hooks, vec![EnginePointer::ClDisconnect, EnginePointer::HostNextDemo]);

    table.hook_installed(EnginePointer::ClDisconnect, 0xAAAA_0000);
    table.hook_installed(EnginePointer::HostNextDemo, 0xBBBB_0000);
    assert_eq!(table.get(EnginePointer::ClDisconnect), Some(0xAAAA_0000));
    assert_eq!(table.pattern_index(EnginePointer::HostNextDemo), Some(0));
    assert_eq!(table.hooked_originals(), &vec![BASE + 0x100, BASE + 0x200]);

    let originals = table.reset_pointers(false);
    assert_eq!(originals, vec![BASE + 0x100, BASE + 0x200]);
    assert!(table.hooked_originals().is_empty());
    for p in all_engine_pointers() {
        assert!(!table.is_set(p));
        assert_eq!(table.pattern_index(p), None);
    }
}

#[test]
fn reset_leaves_pointers_outside_the_list() {
    let mut lookups = vec![None; POINTER_COUNT];
    lookups[EnginePointer::KeyEvent.index()] = Some(0x5000);
    lookups[EnginePointer::ConPrintf.index()] = Some(0x6000);
    let mut table = PointerTable::new();
    table.find_pointers_by_symbol(&lookups, false);
    assert_eq!(table.get(EnginePointer::KeyEvent), Some(0x5000));
    let originals = table.reset_pointers(true);
    assert!(originals.is_empty());
    assert_eq!(table.get(EnginePointer::KeyEvent), Some(0x5000));
    assert_eq!(table.get(EnginePointer::ConPrintf), None);
}

#[test]
fn symbols_fill_the_table() {
    let mut lookups = vec![None; POINTER_COUNT];
    lookups[EnginePointer::Cls.index()] = Some(0x2000_0000);
    lookups[EnginePointer::ConPrintf.index()] = Some(0x3000);
    lookups[EnginePointer::CbufInsertText.index()] = Some(0);
    lookups[EnginePointer::KeyEvent.index()] = Some(0x4000);
    lookups[EnginePointer::ClsDemos.index()] = Some(0x9999);
    let mut table = PointerTable::new();
    table.find_pointers_by_symbol(&lookups, true);
    assert_eq!(table.get(EnginePointer::Cls), Some(0x2000_0000));
    assert_eq!(table.get(EnginePointer::ClsDemos), Some(0x2000_0000 + 15960));
    assert_eq!(table.get(EnginePointer::ConPrintf), Some(0x3000));
    assert_eq!(table.get(EnginePointer::CbufInsertText), None);
    assert_eq!(table.get(EnginePointer::KeyEvent), None);
    assert_eq!(table.pattern_index(EnginePointer::ConPrintf), None);

    let mut table = PointerTable::new();
    table.find_pointers_by_symbol(&lookups, false);
    assert_eq!(table.get(EnginePointer::KeyEvent), Some(0x4000));

    let none = vec![None; POINTER_COUNT];
    let mut table = PointerTable::new();
    table.find_pointers_by_symbol(&none, false);
    assert_eq!(table.get(EnginePointer::ClsDemos), None);
}

#[test]
fn con_print_escapes_nul_bytes() {
    let table = PointerTable::new();
    assert_eq!(con_print(&table, "hello"), None);

    let mut lookups = vec![None; POINTER_COUNT];
    lookups[EnginePointer::ConPrintf.index()] = Some(0x3000);
    let mut table = PointerTable::new();
    table.find_pointers_by_symbol(&lookups, false);
    assert_eq!(con_print(&table, "hello\n"), Some(b"hello\n".to_vec()));
    assert_eq!(con_print(&table, "a\0b"), Some(b"a\\x00b".to_vec()));
    assert_eq!(con_print(&table, "\0"), Some(b"\\x00".to_vec()));
    assert_eq!(con_print(&table, ""), Some(Vec::new()));
    assert_eq!(escape_nul_bytes(&[0, 0]), b"\\x00\\x00".to_vec());
}

#[test]
fn prepend_command_stops_at_the_first_nul() {
    let mut lookups = vec![None; POINTER_COUNT];
    lookups[EnginePointer::CbufInsertText.index()] = Some(0x3000);
    let mut table = PointerTable::new();
    table.find_pointers_by_symbol(&lookups, false);
    assert_eq!(prepend_command(&table, "say hi\0rest\0more"), b"say hi".to_vec());
    assert_eq!(prepend_command(&table, "map c1a0\n"), b"map c1a0\n".to_vec());
    assert_eq!(prepend_command(&table, "\0x"), Vec::<u8>::new());
    assert_eq!(prepend_command(&table, "é"), "é".as_bytes().to_vec());
}

#[test]
fn second_build_offset_for_command_list() {
    let mut memory = vec![0u8; 48];
    place(&mut memory, 0, source(EnginePointer::CmdAddMallocCommand, 1));
    put_u32(&mut memory, 40, 0x0A0B_0C0D);
    let mut table = PointerTable::new();
    table.find_pointers(BASE, &memory, false);
    assert_eq!(table.get(EnginePointer::CmdAddMallocCommand), Some(BASE));
    assert_eq!(table.pattern_index(EnginePointer::CmdAddMallocCommand), Some(1));
    assert_eq!(table.get(EnginePointer::CmdFunctions), Some(0x0A0B_0C0D));
    for p in all_engine_pointers() {
        if p != EnginePointer::CmdAddMallocCommand && p != EnginePointer::CmdFunctions {
            assert!(!table.is_set(p), "{:?}", p);
        }
    }
    assert!(table.hooks_to_install(false).is_empty());
    assert!(table.hooked_originals().is_empty());
}
