//! The engine functions and variables that the library locates, how they are
//! found (by symbol, by byte pattern, or by reading the code around another
//! one), and which of them are hooked.
use vstd::prelude::*;
use vstd::string::StringSliceAdditionalSpecFns;

use crate::pattern::{find_patterns, lemma_find_patterns, matches_at, parse_patterns, Patterns};

verus! {

/// The number of engine pointers.
pub const POINTER_COUNT: usize = 46;

/// A function or variable of the engine that the library locates.
#[derive(Clone, Copy, PartialEq, Eq, Structural, Debug)]
pub enum EnginePointer {
    BuildNumber,
    CbufInsertText,
    ClDisconnect,
    ClGameDirF,
    Cls,
    ClsDemos,
    CmdAddMallocCommand,
    CmdArgc,
    CmdArgv,
    CmdFunctions,
    ConPrintf,
    ConToggleConsoleF,
    ComGamedir,
    CvarRegisterVariable,
    CvarVars,
    GlBeginRendering,
    GEntityInterface,
    KeyEvent,
    LoadEntityDlls,
    HostFilterTime,
    HostFrametime,
    HostInitializeGameDll,
    HostNextDemo,
    HostShutdown,
    HostTellF,
    HostValidSave,
    MemoryInit,
    MemFree,
    Paintbuffer,
    Paintedtime,
    Realtime,
    RSetFrustum,
    ReleaseEntityDlls,
    SPaintChannels,
    STransferStereo16,
    ScrFovValue,
    Shm,
    Sv,
    SvFrame,
    SysVidFlipScreen,
    VApplyShake,
    VFadeAlpha,
    VideoModeIsWindowed,
    VideoModeGetCurrentVideoMode,
    WindowRect,
    ZFree,
}

impl EnginePointer {
    /// The position of the pointer in the engine pointer list.
    pub open spec fn id(self) -> int {
        match self {
            EnginePointer::BuildNumber => 0,
            EnginePointer::CbufInsertText => 1,
            EnginePointer::ClDisconnect => 2,
            EnginePointer::ClGameDirF => 3,
            EnginePointer::Cls => 4,
            EnginePointer::ClsDemos => 5,
            EnginePointer::CmdAddMallocCommand => 6,
            EnginePointer::CmdArgc => 7,
            EnginePointer::CmdArgv => 8,
            EnginePointer::CmdFunctions => 9,
            EnginePointer::ConPrintf => 10,
            EnginePointer::ConToggleConsoleF => 11,
            EnginePointer::ComGamedir => 12,
            EnginePointer::CvarRegisterVariable => 13,
            EnginePointer::CvarVars => 14,
            EnginePointer::GlBeginRendering => 15,
            EnginePointer::GEntityInterface => 16,
            EnginePointer::KeyEvent => 17,
            EnginePointer::LoadEntityDlls => 18,
            EnginePointer::HostFilterTime => 19,
            EnginePointer::HostFrametime => 20,
            EnginePointer::HostInitializeGameDll => 21,
            EnginePointer::HostNextDemo => 22,
            EnginePointer::HostShutdown => 23,
            EnginePointer::HostTellF => 24,
            EnginePointer::HostValidSave => 25,
            EnginePointer::MemoryInit => 26,
            EnginePointer::MemFree => 27,
            EnginePointer::Paintbuffer => 28,
            EnginePointer::Paintedtime => 29,
            EnginePointer::Realtime => 30,
            EnginePointer::RSetFrustum => 31,
            EnginePointer::ReleaseEntityDlls => 32,
            EnginePointer::SPaintChannels => 33,
            EnginePointer::STransferStereo16 => 34,
            EnginePointer::ScrFovValue => 35,
            EnginePointer::Shm => 36,
            EnginePointer::Sv => 37,
            EnginePointer::SvFrame => 38,
            EnginePointer::SysVidFlipScreen => 39,
            EnginePointer::VApplyShake => 40,
            EnginePointer::VFadeAlpha => 41,
            EnginePointer::VideoModeIsWindowed => 42,
            EnginePointer::VideoModeGetCurrentVideoMode => 43,
            EnginePointer::WindowRect => 44,
            EnginePointer::ZFree => 45,
        }
    }

    /// The position of the pointer in the engine pointer list.
    pub fn index(self) -> (r: usize)
        ensures
            r == self.id(),
    {
        match self {
            EnginePointer::BuildNumber => 0,
            EnginePointer::CbufInsertText => 1,
            EnginePointer::ClDisconnect => 2,
            EnginePointer::ClGameDirF => 3,
            EnginePointer::Cls => 4,
            EnginePointer::ClsDemos => 5,
            EnginePointer::CmdAddMallocCommand => 6,
            EnginePointer::CmdArgc => 7,
            EnginePointer::CmdArgv => 8,
            EnginePointer::CmdFunctions => 9,
            EnginePointer::ConPrintf => 10,
            EnginePointer::ConToggleConsoleF => 11,
            EnginePointer::ComGamedir => 12,
            EnginePointer::CvarRegisterVariable => 13,
            EnginePointer::CvarVars => 14,
            EnginePointer::GlBeginRendering => 15,
            EnginePointer::GEntityInterface => 16,
            EnginePointer::KeyEvent => 17,
            EnginePointer::LoadEntityDlls => 18,
            EnginePointer::HostFilterTime => 19,
            EnginePointer::HostFrametime => 20,
            EnginePointer::HostInitializeGameDll => 21,
            EnginePointer::HostNextDemo => 22,
            EnginePointer::HostShutdown => 23,
            EnginePointer::HostTellF => 24,
            EnginePointer::HostValidSave => 25,
            EnginePointer::MemoryInit => 26,
            EnginePointer::MemFree => 27,
            EnginePointer::Paintbuffer => 28,
            EnginePointer::Paintedtime => 29,
            EnginePointer::Realtime => 30,
            EnginePointer::RSetFrustum => 31,
            EnginePointer::ReleaseEntityDlls => 32,
            EnginePointer::SPaintChannels => 33,
            EnginePointer::STransferStereo16 => 34,
            EnginePointer::ScrFovValue => 35,
            EnginePointer::Shm => 36,
            EnginePointer::Sv => 37,
            EnginePointer::SvFrame => 38,
            EnginePointer::SysVidFlipScreen => 39,
            EnginePointer::VApplyShake => 40,
            EnginePointer::VFadeAlpha => 41,
            EnginePointer::VideoModeIsWindowed => 42,
            EnginePointer::VideoModeGetCurrentVideoMode => 43,
            EnginePointer::WindowRect => 44,
            EnginePointer::ZFree => 45,
        }
    }

    /// The name under which the engine exports the function or variable.
    pub open spec fn symbol_name(self) -> &'static str {
        match self {
            EnginePointer::BuildNumber => "build_number",
            EnginePointer::CbufInsertText => "Cbuf_InsertText",
            EnginePointer::ClDisconnect => "CL_Disconnect",
            EnginePointer::ClGameDirF => "CL_GameDir_f",
            EnginePointer::Cls => "cls",
            EnginePointer::ClsDemos => "cls_demos",
            EnginePointer::CmdAddMallocCommand => "Cmd_AddMallocCommand",
            EnginePointer::CmdArgc => "Cmd_Argc",
            EnginePointer::CmdArgv => "Cmd_Argv",
            EnginePointer::CmdFunctions => "cmd_functions",
            EnginePointer::ConPrintf => "Con_Printf",
            EnginePointer::ConToggleConsoleF => "Con_ToggleConsole_f",
            EnginePointer::ComGamedir => "com_gamedir",
            EnginePointer::CvarRegisterVariable => "Cvar_RegisterVariable",
            EnginePointer::CvarVars => "cvar_vars",
            EnginePointer::GlBeginRendering => "GL_BeginRendering",
            EnginePointer::GEntityInterface => "gEntityInterface",
            EnginePointer::KeyEvent => "Key_Event",
            EnginePointer::LoadEntityDlls => "LoadEntityDLLs",
            EnginePointer::HostFilterTime => "Host_FilterTime",
            EnginePointer::HostFrametime => "host_frametime",
            EnginePointer::HostInitializeGameDll => "Host_InitializeGameDLL",
            EnginePointer::HostNextDemo => "Host_NextDemo",
            EnginePointer::HostShutdown => "Host_Shutdown",
            EnginePointer::HostTellF => "Host_Tell_f",
            EnginePointer::HostValidSave => "Host_ValidSave",
            EnginePointer::MemoryInit => "Memory_Init",
            EnginePointer::MemFree => "Mem_Free",
            EnginePointer::Paintbuffer => "paintbuffer",
            EnginePointer::Paintedtime => "paintedtime",
            EnginePointer::Realtime => "realtime",
            EnginePointer::RSetFrustum => "R_SetFrustum",
            EnginePointer::ReleaseEntityDlls => "ReleaseEntityDlls",
            EnginePointer::SPaintChannels => "S_PaintChannels",
            EnginePointer::STransferStereo16 => "S_TransferStereo16",
            EnginePointer::ScrFovValue => "scr_fov_value",
            EnginePointer::Shm => "shm",
            EnginePointer::Sv => "sv",
            EnginePointer::SvFrame => "SV_Frame",
            EnginePointer::SysVidFlipScreen => "_Z18Sys_VID_FlipScreenv",
            EnginePointer::VApplyShake => "V_ApplyShake",
            EnginePointer::VFadeAlpha => "V_FadeAlpha",
            EnginePointer::VideoModeIsWindowed => "VideoMode_IsWindowed",
            EnginePointer::VideoModeGetCurrentVideoMode => "VideoMode_GetCurrentVideoMode",
            EnginePointer::WindowRect => "window_rect",
            EnginePointer::ZFree => "Z_Free",
        }
    }

    /// The name under which the engine exports the function or variable.
    pub fn symbol(self) -> (r: &'static str)
        ensures
            r == self.symbol_name(),
    {
        match self {
            EnginePointer::BuildNumber => "build_number",
            EnginePointer::CbufInsertText => "Cbuf_InsertText",
            EnginePointer::ClDisconnect => "CL_Disconnect",
            EnginePointer::ClGameDirF => "CL_GameDir_f",
            EnginePointer::Cls => "cls",
            EnginePointer::ClsDemos => "cls_demos",
            EnginePointer::CmdAddMallocCommand => "Cmd_AddMallocCommand",
            EnginePointer::CmdArgc => "Cmd_Argc",
            EnginePointer::CmdArgv => "Cmd_Argv",
            EnginePointer::CmdFunctions => "cmd_functions",
            EnginePointer::ConPrintf => "Con_Printf",
            EnginePointer::ConToggleConsoleF => "Con_ToggleConsole_f",
            EnginePointer::ComGamedir => "com_gamedir",
            EnginePointer::CvarRegisterVariable => "Cvar_RegisterVariable",
            EnginePointer::CvarVars => "cvar_vars",
            EnginePointer::GlBeginRendering => "GL_BeginRendering",
            EnginePointer::GEntityInterface => "gEntityInterface",
            EnginePointer::KeyEvent => "Key_Event",
            EnginePointer::LoadEntityDlls => "LoadEntityDLLs",
            EnginePointer::HostFilterTime => "Host_FilterTime",
            EnginePointer::HostFrametime => "host_frametime",
            EnginePointer::HostInitializeGameDll => "Host_InitializeGameDLL",
            EnginePointer::HostNextDemo => "Host_NextDemo",
            EnginePointer::HostShutdown => "Host_Shutdown",
            EnginePointer::HostTellF => "Host_Tell_f",
            EnginePointer::HostValidSave => "Host_ValidSave",
            EnginePointer::MemoryInit => "Memory_Init",
            EnginePointer::MemFree => "Mem_Free",
            EnginePointer::Paintbuffer => "paintbuffer",
            EnginePointer::Paintedtime => "paintedtime",
            EnginePointer::Realtime => "realtime",
            EnginePointer::RSetFrustum => "R_SetFrustum",
            EnginePointer::ReleaseEntityDlls => "ReleaseEntityDlls",
            EnginePointer::SPaintChannels => "S_PaintChannels",
            EnginePointer::STransferStereo16 => "S_TransferStereo16",
            EnginePointer::ScrFovValue => "scr_fov_value",
            EnginePointer::Shm => "shm",
            EnginePointer::Sv => "sv",
            EnginePointer::SvFrame => "SV_Frame",
            EnginePointer::SysVidFlipScreen => "_Z18Sys_VID_FlipScreenv",
            EnginePointer::VApplyShake => "V_ApplyShake",
            EnginePointer::VFadeAlpha => "V_FadeAlpha",
            EnginePointer::VideoModeIsWindowed => "VideoMode_IsWindowed",
            EnginePointer::VideoModeGetCurrentVideoMode => "VideoMode_GetCurrentVideoMode",
            EnginePointer::WindowRect => "window_rect",
            EnginePointer::ZFree => "Z_Free",
        }
    }

    /// Whether the library replaces the engine function with a hook of its own.
    pub open spec fn hooked(self) -> bool {
        match self {
            EnginePointer::ClDisconnect | EnginePointer::ConToggleConsoleF | EnginePointer::KeyEvent | EnginePointer::LoadEntityDlls | EnginePointer::HostFilterTime | EnginePointer::HostNextDemo | EnginePointer::HostShutdown | EnginePointer::MemoryInit | EnginePointer::RSetFrustum | EnginePointer::ReleaseEntityDlls | EnginePointer::SPaintChannels | EnginePointer::STransferStereo16 | EnginePointer::SvFrame | EnginePointer::SysVidFlipScreen | EnginePointer::VApplyShake | EnginePointer::VFadeAlpha => true,
            _ => false,
        }
    }

    /// Whether the library replaces the engine function with a hook of its own.
    pub fn has_hook(self) -> (r: bool)
        ensures
            r == self.hooked(),
    {
        match self {
            EnginePointer::ClDisconnect | EnginePointer::ConToggleConsoleF | EnginePointer::KeyEvent | EnginePointer::LoadEntityDlls | EnginePointer::HostFilterTime | EnginePointer::HostNextDemo | EnginePointer::HostShutdown | EnginePointer::MemoryInit | EnginePointer::RSetFrustum | EnginePointer::ReleaseEntityDlls | EnginePointer::SPaintChannels | EnginePointer::STransferStereo16 | EnginePointer::SvFrame | EnginePointer::SysVidFlipScreen | EnginePointer::VApplyShake | EnginePointer::VFadeAlpha => true,
            _ => false,
        }
    }

    /// Whether the pointer is in the list that is searched, logged, hooked and
    /// reset. Built for compatibility with Bunnymod XT, the list leaves out the
    /// functions that Bunnymod XT hooks itself.
    pub open spec fn listed(self, bxt_compatibility: bool) -> bool {
        !bxt_compatibility || !(match self {
            EnginePointer::KeyEvent | EnginePointer::SvFrame | EnginePointer::VFadeAlpha => true,
            _ => false,
        })
    }

    /// Whether the pointer is in the list that is searched, logged, hooked and reset.
    pub fn is_listed(self, bxt_compatibility: bool) -> (r: bool)
        ensures
            r == self.listed(bxt_compatibility),
    {
        if !bxt_compatibility {
            return true;
        }
        match self {
            EnginePointer::KeyEvent | EnginePointer::SvFrame | EnginePointer::VFadeAlpha => false,
            _ => true,
        }
    }

    /// The byte patterns that locate the function in the engine's code, one per
    /// supported engine build, in order of preference (the build 6153 first,
    /// then 4554).
    pub open spec fn pattern_texts(self) -> Seq<&'static str> {
        match self {
            EnginePointer::BuildNumber => seq!["55 8B EC 83 EC 08 A1 ?? ?? ?? ?? 56 33 F6 85 C0", "A1 ?? ?? ?? ?? 83 EC 08 57 33 FF 85 C0 0F 85 A5 00 00 00 53 56 33 DB BE ?? ?? ?? ?? 8B 06 8B 0D"],
            EnginePointer::CbufInsertText => seq![],
            EnginePointer::ClDisconnect => seq!["55 8B EC 83 EC 14 53 56 33 DB"],
            EnginePointer::ClGameDirF => seq!["E8 ?? ?? ?? ?? 83 F8 02 74 ?? 68 ?? ?? ?? ?? 68"],
            EnginePointer::Cls => seq![],
            EnginePointer::ClsDemos => seq![],
            EnginePointer::CmdAddMallocCommand => seq!["55 8B EC 56 57 8B 7D ?? 57 E8 ?? ?? ?? ?? 8A 08", "56 57 8B 7C 24 ?? 57 E8 ?? ?? ?? ?? 8A 08"],
            EnginePointer::CmdArgc => seq![],
            EnginePointer::CmdArgv => seq![],
            EnginePointer::CmdFunctions => seq![],
            EnginePointer::ConPrintf => seq!["55 8B EC B8 00 10 00 00 E8 ?? ?? ?? ?? 8B 4D", "B8 00 10 00 00 E8 ?? ?? ?? ?? 8B 8C 24"],
            EnginePointer::ConToggleConsoleF => seq!["E8 ?? ?? ?? ?? 85 C0 74 ?? E9 ?? ?? ?? ?? E9"],
            EnginePointer::ComGamedir => seq![],
            EnginePointer::CvarRegisterVariable => seq!["55 8B EC 83 EC 14 53 56 8B 75 ?? 57 8B 06", "83 EC 14 53 56 8B 74 24"],
            EnginePointer::CvarVars => seq![],
            EnginePointer::GlBeginRendering => seq!["55 8B EC 8B 45 ?? 8B 4D ?? 56 57"],
            EnginePointer::GEntityInterface => seq![],
            EnginePointer::KeyEvent => seq!["55 8B EC 81 EC 00 04 00 00 8B 45 ?? 56 3D 00 01 00 00", "81 EC 00 04 00 00 8D 84 24 ?? ?? ?? ?? 8D 8C 24"],
            EnginePointer::LoadEntityDlls => seq!["55 8B EC B8 90 23 00 00", "81 EC 94 04 00 00 53 56 E8"],
            EnginePointer::HostFilterTime => seq!["55 8B EC 83 EC 08 D9 05 ?? ?? ?? ?? D8 1D", "55 8B EC 83 E4 F8 83 EC 08 D9 05 ?? ?? ?? ?? D8 1D ?? ?? ?? ?? DF E0 F6 C4 41"],
            EnginePointer::HostFrametime => seq![],
            EnginePointer::HostInitializeGameDll => seq!["E8 ?? ?? ?? ?? 8B 0D ?? ?? ?? ?? 33 C0 83 F9 01"],
            EnginePointer::HostNextDemo => seq!["55 8B EC 81 EC 00 04 00 00 83 3D ?? ?? ?? ?? FF", "A1 ?? ?? ?? ?? 81 EC 00 04 00 00 83 F8 FF"],
            EnginePointer::HostShutdown => seq!["A1 ?? ?? ?? ?? 53 33 DB 3B C3 74 ?? 68"],
            EnginePointer::HostTellF => seq!["55 8B EC 83 EC 40 A1 ?? ?? ?? ?? 56", "A1 ?? ?? ?? ?? 83 EC 40 83 F8 01 56 75 0A E8"],
            EnginePointer::HostValidSave => seq!["A1 ?? ?? ?? ?? B9 01 00 00 00 3B C1 0F 85"],
            EnginePointer::MemoryInit => seq!["55 8B EC 8B 45 ?? 8B 4D ?? 56 BE 00 00 20 00", "8B 44 24 ?? 8B 4C 24 ?? 56 BE 00 00 20 00"],
            EnginePointer::MemFree => seq!["55 8B EC 6A FF 68 ?? ?? ?? ?? 68 ?? ?? ?? ?? 64 A1 ?? ?? ?? ?? 50 64 89 25 ?? ?? ?? ?? 83 EC 18 53 56 57 8B 75 ?? 85 F6", "56 8B 74 24 ?? 85 F6 74 ?? 6A 09"],
            EnginePointer::Paintbuffer => seq![],
            EnginePointer::Paintedtime => seq![],
            EnginePointer::Realtime => seq![],
            EnginePointer::RSetFrustum => seq!["55 8B EC 83 EC 08 DB 05", "83 EC 08 DB 05 ?? ?? ?? ?? A1 ?? ?? ?? ?? 56 89 44 24 04"],
            EnginePointer::ReleaseEntityDlls => seq!["A1 ?? ?? ?? ?? 56 57 BE ?? ?? ?? ?? 8D 04"],
            EnginePointer::SPaintChannels => seq!["55 8B EC A1 ?? ?? ?? ?? 53 8B 5D ?? 3B C3 0F 8D"],
            EnginePointer::STransferStereo16 => seq!["55 8B EC 83 EC 0C D9 05 ?? ?? ?? ?? D8 0D"],
            EnginePointer::ScrFovValue => seq![],
            EnginePointer::Shm => seq![],
            EnginePointer::Sv => seq![],
            EnginePointer::SvFrame => seq!["A1 ?? ?? ?? ?? 85 C0 74 ?? DD 05 ?? ?? ?? ?? A1"],
            EnginePointer::SysVidFlipScreen => seq!["A1 ?? ?? ?? ?? 85 C0 74 ?? 8B 00"],
            EnginePointer::VApplyShake => seq!["55 8B EC 8D 45 ?? 8D 4D ?? 50 8D 55 ?? 51 52 FF 15 ?? ?? ?? ?? 8B 45 ?? 83 C4 0C", "8D 44 24 ?? 8D 4C 24 ?? 50 8D 54 24 ?? 51 52 FF 15 ?? ?? ?? ?? 8B 44 24 ?? 83 C4 0C"],
            EnginePointer::VFadeAlpha => seq!["55 8B EC 83 EC 08 D9 05 ?? ?? ?? ?? DC 1D", "D9 05 ?? ?? ?? ?? DC 1D ?? ?? ?? ?? 8A 0D ?? ?? ?? ?? 83 EC 08"],
            EnginePointer::VideoModeIsWindowed => seq!["8B 0D ?? ?? ?? ?? 85 C9 74 ?? 8B 01 FF 50 ?? 84 C0"],
            EnginePointer::VideoModeGetCurrentVideoMode => seq!["55 8B EC 8B 0D ?? ?? ?? ?? 8B 01 FF 50 ?? 85 C0"],
            EnginePointer::WindowRect => seq![],
            EnginePointer::ZFree => seq!["55 8B EC 56 8B 75 ?? 85 F6 57 75 ?? 68 ?? ?? ?? ?? E8 ?? ?? ?? ?? 83 C4 04 8B 46", "56 8B 74 24 ?? 85 F6 57 75 ?? 68 ?? ?? ?? ?? E8 ?? ?? ?? ?? 83 C4 04 8B 46"],
        }
    }

    /// The byte patterns that locate the function in the engine's code, as text.
    pub fn pattern_sources(self) -> (r: Vec<&'static str>)
        ensures
            r@ == self.pattern_texts(),
    {
        match self {
            EnginePointer::BuildNumber => vec!["55 8B EC 83 EC 08 A1 ?? ?? ?? ?? 56 33 F6 85 C0", "A1 ?? ?? ?? ?? 83 EC 08 57 33 FF 85 C0 0F 85 A5 00 00 00 53 56 33 DB BE ?? ?? ?? ?? 8B 06 8B 0D"],
            EnginePointer::CbufInsertText => Vec::new(),
            EnginePointer::ClDisconnect => vec!["55 8B EC 83 EC 14 53 56 33 DB"],
            EnginePointer::ClGameDirF => vec!["E8 ?? ?? ?? ?? 83 F8 02 74 ?? 68 ?? ?? ?? ?? 68"],
            EnginePointer::Cls => Vec::new(),
            EnginePointer::ClsDemos => Vec::new(),
            EnginePointer::CmdAddMallocCommand => vec!["55 8B EC 56 57 8B 7D ?? 57 E8 ?? ?? ?? ?? 8A 08", "56 57 8B 7C 24 ?? 57 E8 ?? ?? ?? ?? 8A 08"],
            EnginePointer::CmdArgc => Vec::new(),
            EnginePointer::CmdArgv => Vec::new(),
            EnginePointer::CmdFunctions => Vec::new(),
            EnginePointer::ConPrintf => vec!["55 8B EC B8 00 10 00 00 E8 ?? ?? ?? ?? 8B 4D", "B8 00 10 00 00 E8 ?? ?? ?? ?? 8B 8C 24"],
            EnginePointer::ConToggleConsoleF => vec!["E8 ?? ?? ?? ?? 85 C0 74 ?? E9 ?? ?? ?? ?? E9"],
            EnginePointer::ComGamedir => Vec::new(),
            EnginePointer::CvarRegisterVariable => vec!["55 8B EC 83 EC 14 53 56 8B 75 ?? 57 8B 06", "83 EC 14 53 56 8B 74 24"],
            EnginePointer::CvarVars => Vec::new(),
            EnginePointer::GlBeginRendering => vec!["55 8B EC 8B 45 ?? 8B 4D ?? 56 57"],
            EnginePointer::GEntityInterface => Vec::new(),
            EnginePointer::KeyEvent => vec!["55 8B EC 81 EC 00 04 00 00 8B 45 ?? 56 3D 00 01 00 00", "81 EC 00 04 00 00 8D 84 24 ?? ?? ?? ?? 8D 8C 24"],
            EnginePointer::LoadEntityDlls => vec!["55 8B EC B8 90 23 00 00", "81 EC 94 04 00 00 53 56 E8"],
            EnginePointer::HostFilterTime => vec!["55 8B EC 83 EC 08 D9 05 ?? ?? ?? ?? D8 1D", "55 8B EC 83 E4 F8 83 EC 08 D9 05 ?? ?? ?? ?? D8 1D ?? ?? ?? ?? DF E0 F6 C4 41"],
            EnginePointer::HostFrametime => Vec::new(),
            EnginePointer::HostInitializeGameDll => vec!["E8 ?? ?? ?? ?? 8B 0D ?? ?? ?? ?? 33 C0 83 F9 01"],
            EnginePointer::HostNextDemo => vec!["55 8B EC 81 EC 00 04 00 00 83 3D ?? ?? ?? ?? FF", "A1 ?? ?? ?? ?? 81 EC 00 04 00 00 83 F8 FF"],
            EnginePointer::HostShutdown => vec!["A1 ?? ?? ?? ?? 53 33 DB 3B C3 74 ?? 68"],
            EnginePointer::HostTellF => vec!["55 8B EC 83 EC 40 A1 ?? ?? ?? ?? 56", "A1 ?? ?? ?? ?? 83 EC 40 83 F8 01 56 75 0A E8"],
            EnginePointer::HostValidSave => vec!["A1 ?? ?? ?? ?? B9 01 00 00 00 3B C1 0F 85"],
            EnginePointer::MemoryInit => vec!["55 8B EC 8B 45 ?? 8B 4D ?? 56 BE 00 00 20 00", "8B 44 24 ?? 8B 4C 24 ?? 56 BE 00 00 20 00"],
            EnginePointer::MemFree => vec!["55 8B EC 6A FF 68 ?? ?? ?? ?? 68 ?? ?? ?? ?? 64 A1 ?? ?? ?? ?? 50 64 89 25 ?? ?? ?? ?? 83 EC 18 53 56 57 8B 75 ?? 85 F6", "56 8B 74 24 ?? 85 F6 74 ?? 6A 09"],
            EnginePointer::Paintbuffer => Vec::new(),
            EnginePointer::Paintedtime => Vec::new(),
            EnginePointer::Realtime => Vec::new(),
            EnginePointer::RSetFrustum => vec!["55 8B EC 83 EC 08 DB 05", "83 EC 08 DB 05 ?? ?? ?? ?? A1 ?? ?? ?? ?? 56 89 44 24 04"],
            EnginePointer::ReleaseEntityDlls => vec!["A1 ?? ?? ?? ?? 56 57 BE ?? ?? ?? ?? 8D 04"],
            EnginePointer::SPaintChannels => vec!["55 8B EC A1 ?? ?? ?? ?? 53 8B 5D ?? 3B C3 0F 8D"],
            EnginePointer::STransferStereo16 => vec!["55 8B EC 83 EC 0C D9 05 ?? ?? ?? ?? D8 0D"],
            EnginePointer::ScrFovValue => Vec::new(),
            EnginePointer::Shm => Vec::new(),
            EnginePointer::Sv => Vec::new(),
            EnginePointer::SvFrame => vec!["A1 ?? ?? ?? ?? 85 C0 74 ?? DD 05 ?? ?? ?? ?? A1"],
            EnginePointer::SysVidFlipScreen => vec!["A1 ?? ?? ?? ?? 85 C0 74 ?? 8B 00"],
            EnginePointer::VApplyShake => vec!["55 8B EC 8D 45 ?? 8D 4D ?? 50 8D 55 ?? 51 52 FF 15 ?? ?? ?? ?? 8B 45 ?? 83 C4 0C", "8D 44 24 ?? 8D 4C 24 ?? 50 8D 54 24 ?? 51 52 FF 15 ?? ?? ?? ?? 8B 44 24 ?? 83 C4 0C"],
            EnginePointer::VFadeAlpha => vec!["55 8B EC 83 EC 08 D9 05 ?? ?? ?? ?? DC 1D", "D9 05 ?? ?? ?? ?? DC 1D ?? ?? ?? ?? 8A 0D ?? ?? ?? ?? 83 EC 08"],
            EnginePointer::VideoModeIsWindowed => vec!["8B 0D ?? ?? ?? ?? 85 C9 74 ?? 8B 01 FF 50 ?? 84 C0"],
            EnginePointer::VideoModeGetCurrentVideoMode => vec!["55 8B EC 8B 0D ?? ?? ?? ?? 8B 01 FF 50 ?? 85 C0"],
            EnginePointer::WindowRect => Vec::new(),
            EnginePointer::ZFree => vec!["55 8B EC 56 8B 75 ?? 85 F6 57 75 ?? 68 ?? ?? ?? ?? E8 ?? ?? ?? ?? 83 C4 04 8B 46", "56 8B 74 24 ?? 85 F6 57 75 ?? 68 ?? ?? ?? ?? E8 ?? ?? ?? ?? 83 C4 04 8B 46"],
        }
    }

    /// The byte patterns that locate the function in the engine's code.
    pub fn patterns(self) -> (r: Patterns)
        ensures
            r@ == parse_patterns(self.pattern_texts()),
    {
        let texts = self.pattern_sources();
        Patterns::from_texts(&texts)
    }
}

/// All engine pointers, in list order.
pub open spec fn all_pointers() -> Seq<EnginePointer> {
    seq![EnginePointer::BuildNumber, EnginePointer::CbufInsertText, EnginePointer::ClDisconnect, EnginePointer::ClGameDirF, EnginePointer::Cls, EnginePointer::ClsDemos, EnginePointer::CmdAddMallocCommand, EnginePointer::CmdArgc, EnginePointer::CmdArgv, EnginePointer::CmdFunctions, EnginePointer::ConPrintf, EnginePointer::ConToggleConsoleF, EnginePointer::ComGamedir, EnginePointer::CvarRegisterVariable, EnginePointer::CvarVars, EnginePointer::GlBeginRendering, EnginePointer::GEntityInterface, EnginePointer::KeyEvent, EnginePointer::LoadEntityDlls, EnginePointer::HostFilterTime, EnginePointer::HostFrametime, EnginePointer::HostInitializeGameDll, EnginePointer::HostNextDemo, EnginePointer::HostShutdown, EnginePointer::HostTellF, EnginePointer::HostValidSave, EnginePointer::MemoryInit, EnginePointer::MemFree, EnginePointer::Paintbuffer, EnginePointer::Paintedtime, EnginePointer::Realtime, EnginePointer::RSetFrustum, EnginePointer::ReleaseEntityDlls, EnginePointer::SPaintChannels, EnginePointer::STransferStereo16, EnginePointer::ScrFovValue, EnginePointer::Shm, EnginePointer::Sv, EnginePointer::SvFrame, EnginePointer::SysVidFlipScreen, EnginePointer::VApplyShake, EnginePointer::VFadeAlpha, EnginePointer::VideoModeIsWindowed, EnginePointer::VideoModeGetCurrentVideoMode, EnginePointer::WindowRect, EnginePointer::ZFree]
}

/// The engine pointer at position `k` of the list.
pub open spec fn pointer_at(k: int) -> EnginePointer {
    all_pointers()[k]
}

/// The list of all engine pointers has one entry per position, in position order.
pub proof fn lemma_all_pointers()
    ensures
        all_pointers().len() == POINTER_COUNT,
        forall|k: int| 0 <= k < POINTER_COUNT ==> (#[trigger] pointer_at(k)).id() == k,
        forall|p: EnginePointer| 0 <= #[trigger] p.id() < POINTER_COUNT && pointer_at(p.id()) == p,
{
    assert forall|p: EnginePointer| 0 <= #[trigger] p.id() < POINTER_COUNT && pointer_at(p.id()) == p by {
        match p {
            EnginePointer::BuildNumber => { assert(pointer_at(0) == EnginePointer::BuildNumber); },
            EnginePointer::CbufInsertText => { assert(pointer_at(1) == EnginePointer::CbufInsertText); },
            EnginePointer::ClDisconnect => { assert(pointer_at(2) == EnginePointer::ClDisconnect); },
            EnginePointer::ClGameDirF => { assert(pointer_at(3) == EnginePointer::ClGameDirF); },
            EnginePointer::Cls => { assert(pointer_at(4) == EnginePointer::Cls); },
            EnginePointer::ClsDemos => { assert(pointer_at(5) == EnginePointer::ClsDemos); },
            EnginePointer::CmdAddMallocCommand => { assert(pointer_at(6) == EnginePointer::CmdAddMallocCommand); },
            EnginePointer::CmdArgc => { assert(pointer_at(7) == EnginePointer::CmdArgc); },
            EnginePointer::CmdArgv => { assert(pointer_at(8) == EnginePointer::CmdArgv); },
            EnginePointer::CmdFunctions => { assert(pointer_at(9) == EnginePointer::CmdFunctions); },
            EnginePointer::ConPrintf => { assert(pointer_at(10) == EnginePointer::ConPrintf); },
            EnginePointer::ConToggleConsoleF => { assert(pointer_at(11) == EnginePointer::ConToggleConsoleF); },
            EnginePointer::ComGamedir => { assert(pointer_at(12) == EnginePointer::ComGamedir); },
            EnginePointer::CvarRegisterVariable => { assert(pointer_at(13) == EnginePointer::CvarRegisterVariable); },
            EnginePointer::CvarVars => { assert(pointer_at(14) == EnginePointer::CvarVars); },
            EnginePointer::GlBeginRendering => { assert(pointer_at(15) == EnginePointer::GlBeginRendering); },
            EnginePointer::GEntityInterface => { assert(pointer_at(16) == EnginePointer::GEntityInterface); },
            EnginePointer::KeyEvent => { assert(pointer_at(17) == EnginePointer::KeyEvent); },
            EnginePointer::LoadEntityDlls => { assert(pointer_at(18) == EnginePointer::LoadEntityDlls); },
            EnginePointer::HostFilterTime => { assert(pointer_at(19) == EnginePointer::HostFilterTime); },
            EnginePointer::HostFrametime => { assert(pointer_at(20) == EnginePointer::HostFrametime); },
            EnginePointer::HostInitializeGameDll => { assert(pointer_at(21) == EnginePointer::HostInitializeGameDll); },
            EnginePointer::HostNextDemo => { assert(pointer_at(22) == EnginePointer::HostNextDemo); },
            EnginePointer::HostShutdown => { assert(pointer_at(23) == EnginePointer::HostShutdown); },
            EnginePointer::HostTellF => { assert(pointer_at(24) == EnginePointer::HostTellF); },
            EnginePointer::HostValidSave => { assert(pointer_at(25) == EnginePointer::HostValidSave); },
            EnginePointer::MemoryInit => { assert(pointer_at(26) == EnginePointer::MemoryInit); },
            EnginePointer::MemFree => { assert(pointer_at(27) == EnginePointer::MemFree); },
            EnginePointer::Paintbuffer => { assert(pointer_at(28) == EnginePointer::Paintbuffer); },
            EnginePointer::Paintedtime => { assert(pointer_at(29) == EnginePointer::Paintedtime); },
            EnginePointer::Realtime => { assert(pointer_at(30) == EnginePointer::Realtime); },
            EnginePointer::RSetFrustum => { assert(pointer_at(31) == EnginePointer::RSetFrustum); },
            EnginePointer::ReleaseEntityDlls => { assert(pointer_at(32) == EnginePointer::ReleaseEntityDlls); },
            EnginePointer::SPaintChannels => { assert(pointer_at(33) == EnginePointer::SPaintChannels); },
            EnginePointer::STransferStereo16 => { assert(pointer_at(34) == EnginePointer::STransferStereo16); },
            EnginePointer::ScrFovValue => { assert(pointer_at(35) == EnginePointer::ScrFovValue); },
            EnginePointer::Shm => { assert(pointer_at(36) == EnginePointer::Shm); },
            EnginePointer::Sv => { assert(pointer_at(37) == EnginePointer::Sv); },
            EnginePointer::SvFrame => { assert(pointer_at(38) == EnginePointer::SvFrame); },
            EnginePointer::SysVidFlipScreen => { assert(pointer_at(39) == EnginePointer::SysVidFlipScreen); },
            EnginePointer::VApplyShake => { assert(pointer_at(40) == EnginePointer::VApplyShake); },
            EnginePointer::VFadeAlpha => { assert(pointer_at(41) == EnginePointer::VFadeAlpha); },
            EnginePointer::VideoModeIsWindowed => { assert(pointer_at(42) == EnginePointer::VideoModeIsWindowed); },
            EnginePointer::VideoModeGetCurrentVideoMode => { assert(pointer_at(43) == EnginePointer::VideoModeGetCurrentVideoMode); },
            EnginePointer::WindowRect => { assert(pointer_at(44) == EnginePointer::WindowRect); },
            EnginePointer::ZFree => { assert(pointer_at(45) == EnginePointer::ZFree); },
        }
    }
}

/// All engine pointers, in list order.
pub fn all_engine_pointers() -> (r: Vec<EnginePointer>)
    ensures
        r@ == all_pointers(),
{
    vec![EnginePointer::BuildNumber, EnginePointer::CbufInsertText, EnginePointer::ClDisconnect, EnginePointer::ClGameDirF, EnginePointer::Cls, EnginePointer::ClsDemos, EnginePointer::CmdAddMallocCommand, EnginePointer::CmdArgc, EnginePointer::CmdArgv, EnginePointer::CmdFunctions, EnginePointer::ConPrintf, EnginePointer::ConToggleConsoleF, EnginePointer::ComGamedir, EnginePointer::CvarRegisterVariable, EnginePointer::CvarVars, EnginePointer::GlBeginRendering, EnginePointer::GEntityInterface, EnginePointer::KeyEvent, EnginePointer::LoadEntityDlls, EnginePointer::HostFilterTime, EnginePointer::HostFrametime, EnginePointer::HostInitializeGameDll, EnginePointer::HostNextDemo, EnginePointer::HostShutdown, EnginePointer::HostTellF, EnginePointer::HostValidSave, EnginePointer::MemoryInit, EnginePointer::MemFree, EnginePointer::Paintbuffer, EnginePointer::Paintedtime, EnginePointer::Realtime, EnginePointer::RSetFrustum, EnginePointer::ReleaseEntityDlls, EnginePointer::SPaintChannels, EnginePointer::STransferStereo16, EnginePointer::ScrFovValue, EnginePointer::Shm, EnginePointer::Sv, EnginePointer::SvFrame, EnginePointer::SysVidFlipScreen, EnginePointer::VApplyShake, EnginePointer::VFadeAlpha, EnginePointer::VideoModeIsWindowed, EnginePointer::VideoModeGetCurrentVideoMode, EnginePointer::WindowRect, EnginePointer::ZFree]
}

/// What the library knows of one engine pointer: its address, if found, and
/// which of its patterns found it, if one did.
#[derive(Clone, Copy, PartialEq, Eq, Structural, Debug)]
pub struct Slot {
    pub address: Option<u32>,
    pub pattern_index: Option<usize>,
}

/// A slot that holds nothing.
pub open spec fn empty_slot() -> Slot {
    Slot { address: None, pattern_index: None }
}

/// The slot after setting an address without a pattern index.
pub open spec fn set_slot(address: Option<u32>) -> Slot {
    Slot { address, pattern_index: None }
}

/// An address, where it is not null.
pub open spec fn non_null(v: Option<u32>) -> Option<u32> {
    match v {
        Some(a) => if a == 0 {
            None
        } else {
            Some(a)
        },
        None => None,
    }
}

/// The little-endian 32-bit value of the four bytes at `pos`.
pub open spec fn le_u32(m: Seq<u8>, pos: int) -> u32 {
    (m[pos] as int + m[pos + 1] as int * 0x100 + m[pos + 2] as int * 0x10000 + m[pos + 3] as int
        * 0x1000000) as u32
}

/// The 32-bit value stored at `address` in the image of the engine that is
/// mapped at `base`, if the four bytes lie in the image.
pub open spec fn image_read(base: u32, memory: Seq<u8>, address: int) -> Option<u32> {
    let pos = address - base;
    if 0 <= pos && pos + 4 <= memory.len() {
        Some(le_u32(memory, pos))
    } else {
        None
    }
}

/// An address computed modulo the 32-bit address space.
pub open spec fn wrap32(x: int) -> u32 {
    (x % 0x1_0000_0000) as u32
}

/// The pointer stored in the engine's code at `offset` bytes past `source`.
pub open spec fn read_pointer(source: Slot, base: u32, memory: Seq<u8>, offset: int) -> Option<u32> {
    match source.address {
        Some(a) => non_null(image_read(base, memory, a + offset)),
        None => None,
    }
}

/// The target of the relative call whose 32-bit displacement lies at `offset`
/// bytes past `source`.
pub open spec fn call_target(source: Slot, base: u32, memory: Seq<u8>, offset: int) -> Option<u32> {
    match source.address {
        Some(a) => match image_read(base, memory, a + offset) {
            Some(rel) => non_null(Some(wrap32(a + offset + 4 + rel))),
            None => None,
        },
        None => None,
    }
}

/// The address `delta` bytes past `source`.
pub open spec fn displaced(source: Slot, delta: int) -> Option<u32> {
    match source.address {
        Some(a) => non_null(Some(wrap32(a + delta))),
        None => None,
    }
}

/// The slot of `p` in `slots`.
pub open spec fn at(slots: Seq<Slot>, p: EnginePointer) -> Slot {
    slots[p.id()]
}

/// The slot of `p` after the pattern search: where one of its patterns occurs in
/// the image, the address of the first occurrence and the pattern's position.
pub open spec fn searched_slot(
    old: Slot,
    p: EnginePointer,
    base: u32,
    memory: Seq<u8>,
    bxt_compatibility: bool,
) -> Slot {
    if p.listed(bxt_compatibility) {
        match find_patterns(memory, parse_patterns(p.pattern_texts())) {
            Some((offset, index)) => Slot {
                address: Some((base + offset) as u32),
                pattern_index: Some(index as usize),
            },
            None => old,
        }
    } else {
        old
    }
}

/// All slots after the pattern search.
pub open spec fn searched_slots(
    slots: Seq<Slot>,
    base: u32,
    memory: Seq<u8>,
    bxt_compatibility: bool,
) -> Seq<Slot> {
    Seq::new(
        slots.len(),
        |k: int| searched_slot(slots[k], pointer_at(k), base, memory, bxt_compatibility),
    )
}

/// The slot of `p` once the pointers that are found by reading the code of a
/// function located by its pattern are filled in, for the build that the
/// pattern belongs to. `slots` are the slots after the pattern search.
pub open spec fn derived_slot(slots: Seq<Slot>, p: EnginePointer, base: u32, memory: Seq<u8>) -> Slot {
    let idx = |q: EnginePointer| at(slots, q).pattern_index;
    let off = |q: EnginePointer, o: int| set_slot(read_pointer(at(slots, q), base, memory, o));
    let call = |q: EnginePointer, o: int| set_slot(call_target(at(slots, q), base, memory, o));
    let unset = at(slots, p).address is None;
    match p {
        EnginePointer::ComGamedir => if idx(EnginePointer::ClGameDirF) == Some(0usize) {
            off(EnginePointer::ClGameDirF, 11)
        } else {
            at(slots, p)
        },
        EnginePointer::CmdFunctions => if idx(EnginePointer::CmdAddMallocCommand) == Some(0usize) {
            off(EnginePointer::CmdAddMallocCommand, 43)
        } else if idx(EnginePointer::CmdAddMallocCommand) == Some(1usize) {
            off(EnginePointer::CmdAddMallocCommand, 40)
        } else {
            at(slots, p)
        },
        EnginePointer::CvarVars => if idx(EnginePointer::CvarRegisterVariable) == Some(0usize) {
            off(EnginePointer::CvarRegisterVariable, 124)
        } else if idx(EnginePointer::CvarRegisterVariable) == Some(1usize) {
            off(EnginePointer::CvarRegisterVariable, 122)
        } else {
            at(slots, p)
        },
        EnginePointer::LoadEntityDlls => if idx(EnginePointer::HostInitializeGameDll) == Some(0usize)
            && unset {
            call(EnginePointer::HostInitializeGameDll, 69)
        } else {
            at(slots, p)
        },
        EnginePointer::GEntityInterface => if idx(EnginePointer::HostInitializeGameDll) == Some(
            0usize,
        ) {
            off(EnginePointer::HostInitializeGameDll, 75)
        } else {
            at(slots, p)
        },
        EnginePointer::HostFrametime => if idx(EnginePointer::SvFrame) == Some(0usize) {
            off(EnginePointer::SvFrame, 11)
        } else if idx(EnginePointer::HostFilterTime) == Some(0usize) {
            off(EnginePointer::HostFilterTime, 64)
        } else if idx(EnginePointer::HostFilterTime) == Some(1usize) {
            off(EnginePointer::HostFilterTime, 65)
        } else {
            at(slots, p)
        },
        EnginePointer::Realtime => if idx(EnginePointer::HostFilterTime) == Some(0usize) {
            off(EnginePointer::HostFilterTime, 70)
        } else if idx(EnginePointer::HostFilterTime) == Some(1usize) {
            off(EnginePointer::HostFilterTime, 71)
        } else {
            at(slots, p)
        },
        EnginePointer::CbufInsertText => if idx(EnginePointer::HostNextDemo) == Some(0usize) {
            call(EnginePointer::HostNextDemo, 140)
        } else if idx(EnginePointer::HostNextDemo) == Some(1usize) {
            call(EnginePointer::HostNextDemo, 137)
        } else {
            at(slots, p)
        },
        EnginePointer::ClsDemos => if idx(EnginePointer::HostNextDemo) == Some(0usize) {
            off(EnginePointer::HostNextDemo, 11)
        } else if idx(EnginePointer::HostNextDemo) == Some(1usize) {
            off(EnginePointer::HostNextDemo, 1)
        } else {
            at(slots, p)
        },
        EnginePointer::CmdArgc => if idx(EnginePointer::HostTellF) == Some(0usize) {
            call(EnginePointer::HostTellF, 28)
        } else if idx(EnginePointer::HostTellF) == Some(1usize) {
            call(EnginePointer::HostTellF, 25)
        } else {
            at(slots, p)
        },
        EnginePointer::CmdArgv => if idx(EnginePointer::HostTellF) == Some(0usize) {
            call(EnginePointer::HostTellF, 145)
        } else if idx(EnginePointer::HostTellF) == Some(1usize) {
            call(EnginePointer::HostTellF, 144)
        } else {
            at(slots, p)
        },
        EnginePointer::Sv => if idx(EnginePointer::SvFrame) == Some(0usize) {
            off(EnginePointer::SvFrame, 1)
        } else if idx(EnginePointer::HostValidSave) == Some(0usize) {
            off(EnginePointer::HostValidSave, 19)
        } else {
            at(slots, p)
        },
        EnginePointer::Cls => if idx(EnginePointer::HostValidSave) == Some(0usize) {
            off(EnginePointer::HostValidSave, 69)
        } else {
            at(slots, p)
        },
        EnginePointer::ConPrintf => if idx(EnginePointer::HostValidSave) == Some(0usize) && unset {
            call(EnginePointer::HostValidSave, 33)
        } else {
            at(slots, p)
        },
        EnginePointer::VideoModeIsWindowed => if idx(EnginePointer::GlBeginRendering) == Some(
            0usize,
        ) && unset {
            call(EnginePointer::GlBeginRendering, 24)
        } else {
            at(slots, p)
        },
        EnginePointer::VideoModeGetCurrentVideoMode => if idx(EnginePointer::GlBeginRendering)
            == Some(0usize) && unset {
            call(EnginePointer::GlBeginRendering, 79)
        } else {
            at(slots, p)
        },
        EnginePointer::WindowRect => if idx(EnginePointer::GlBeginRendering) == Some(0usize) {
            off(EnginePointer::GlBeginRendering, 43)
        } else {
            at(slots, p)
        },
        EnginePointer::ScrFovValue => if idx(EnginePointer::RSetFrustum) == Some(0usize) {
            off(EnginePointer::RSetFrustum, 13)
        } else if idx(EnginePointer::RSetFrustum) == Some(1usize) {
            off(EnginePointer::RSetFrustum, 10)
        } else {
            at(slots, p)
        },
        EnginePointer::Paintedtime => if idx(EnginePointer::SPaintChannels) == Some(0usize) {
            off(EnginePointer::SPaintChannels, 4)
        } else {
            at(slots, p)
        },
        EnginePointer::Paintbuffer => if idx(EnginePointer::SPaintChannels) == Some(0usize) {
            off(EnginePointer::SPaintChannels, 60)
        } else {
            at(slots, p)
        },
        EnginePointer::Shm => if idx(EnginePointer::STransferStereo16) == Some(0usize) {
            off(EnginePointer::STransferStereo16, 337)
        } else {
            at(slots, p)
        },
        _ => at(slots, p),
    }
}



fn non_null_exec(v: Option<u32>) -> (r: Option<u32>)
    ensures
        r == non_null(v),
{
    match v {
        Some(a) => if a == 0 {
            None
        } else {
            Some(a)
        },
        None => None,
    }
}

/// The 32-bit value stored at `address` in the image mapped at `base`, if the
/// four bytes lie in the image.
fn read_image(base: u32, memory: &[u8], address: u64) -> (r: Option<u32>)
    ensures
        r == image_read(base, memory@, address as int),
{
    if address < base as u64 {
        return None;
    }
    let pos = address - base as u64;
    let len = memory.len() as u64;
    if len < 4 || pos > len - 4 {
        return None;
    }
    let p = pos as usize;
    let v = memory[p] as u32 + memory[p + 1] as u32 * 0x100 + memory[p + 2] as u32 * 0x10000
        + memory[p + 3] as u32 * 0x1000000;
    Some(v)
}


/// The 32-bit little-endian number stored in the engine image mapped at `base`
/// at address `addr`, if its four bytes lie in the image.
pub open spec fn stored_u32(base: u32, memory: Seq<u8>, addr: int) -> Option<int> {
    let pos = addr - base;
    if 0 <= pos && pos + 4 <= memory.len() {
        Some(memory[pos] + memory[pos + 1] * 256 + memory[pos + 2] * 65536 + memory[pos + 3] * 16777216)
    } else {
        None
    }
}

/// The pointer stored `off` bytes past the address of `source` (none where it is null).
pub open spec fn read_at(source: Slot, base: u32, memory: Seq<u8>, off: int) -> Option<u32> {
    match source.address {
        Some(a) => match stored_u32(base, memory, a + off) {
            Some(v) => if v == 0 {
                None
            } else {
                Some(v as u32)
            },
            None => None,
        },
        None => None,
    }
}

/// The target of the `call rel32` whose displacement lies `off` bytes past the
/// address of `source`: the address after the displacement plus the
/// displacement, modulo 2^32 (none where it is null).
pub open spec fn call_from(source: Slot, base: u32, memory: Seq<u8>, off: int) -> Option<u32> {
    match source.address {
        Some(a) => match stored_u32(base, memory, a + off) {
            Some(v) => {
                let t = (a + off + 4 + v) % 0x1_0000_0000;
                if t == 0 {
                    None
                } else {
                    Some(t as u32)
                }
            },
            None => None,
        },
        None => None,
    }
}

proof fn lemma_reads_agree(source: Slot, base: u32, memory: Seq<u8>, off: int)
    ensures
        read_pointer(source, base, memory, off) == read_at(source, base, memory, off),
        call_target(source, base, memory, off) == call_from(source, base, memory, off),
{
}

/// Which pointers are read from the code of which found function, per engine
/// build (the position of the pattern that found it: 0 for build 6153, 1 for
/// build 4554), at which offset, and how: as a pointer stored there, or as
/// the target of the relative call whose displacement is stored there.
/// LoadEntityDLLs, Con_Printf and the two VideoMode functions take the call
/// target only where their own patterns did not find them; SV_Frame takes
/// precedence over Host_FilterTime for `host_frametime` and over
/// Host_ValidSave for `sv`. Every other pointer is left as the search left it.
pub proof fn lemma_derivation_table(slots: Seq<Slot>, base: u32, memory: Seq<u8>)
    ensures
        (at(slots, EnginePointer::ClGameDirF).pattern_index == Some(0usize)) ==> derived_slot(slots, EnginePointer::ComGamedir, base, memory) == set_slot(read_at(at(slots, EnginePointer::ClGameDirF), base, memory, 11)),
        (!(at(slots, EnginePointer::ClGameDirF).pattern_index == Some(0usize))) ==> derived_slot(slots, EnginePointer::ComGamedir, base, memory) == at(slots, EnginePointer::ComGamedir),
        (at(slots, EnginePointer::CmdAddMallocCommand).pattern_index == Some(0usize)) ==> derived_slot(slots, EnginePointer::CmdFunctions, base, memory) == set_slot(read_at(at(slots, EnginePointer::CmdAddMallocCommand), base, memory, 43)),
        (!(at(slots, EnginePointer::CmdAddMallocCommand).pattern_index == Some(0usize)) && at(slots, EnginePointer::CmdAddMallocCommand).pattern_index == Some(1usize)) ==> derived_slot(slots, EnginePointer::CmdFunctions, base, memory) == set_slot(read_at(at(slots, EnginePointer::CmdAddMallocCommand), base, memory, 40)),
        (!(at(slots, EnginePointer::CmdAddMallocCommand).pattern_index == Some(0usize)) && !(at(slots, EnginePointer::CmdAddMallocCommand).pattern_index == Some(1usize))) ==> derived_slot(slots, EnginePointer::CmdFunctions, base, memory) == at(slots, EnginePointer::CmdFunctions),
        (at(slots, EnginePointer::CvarRegisterVariable).pattern_index == Some(0usize)) ==> derived_slot(slots, EnginePointer::CvarVars, base, memory) == set_slot(read_at(at(slots, EnginePointer::CvarRegisterVariable), base, memory, 124)),
        (!(at(slots, EnginePointer::CvarRegisterVariable).pattern_index == Some(0usize)) && at(slots, EnginePointer::CvarRegisterVariable).pattern_index == Some(1usize)) ==> derived_slot(slots, EnginePointer::CvarVars, base, memory) == set_slot(read_at(at(slots, EnginePointer::CvarRegisterVariable), base, memory, 122)),
        (!(at(slots, EnginePointer::CvarRegisterVariable).pattern_index == Some(0usize)) && !(at(slots, EnginePointer::CvarRegisterVariable).pattern_index == Some(1usize))) ==> derived_slot(slots, EnginePointer::CvarVars, base, memory) == at(slots, EnginePointer::CvarVars),
        (at(slots, EnginePointer::HostInitializeGameDll).pattern_index == Some(0usize) && at(slots, EnginePointer::LoadEntityDlls).address is None) ==> derived_slot(slots, EnginePointer::LoadEntityDlls, base, memory) == set_slot(call_from(at(slots, EnginePointer::HostInitializeGameDll), base, memory, 69)),
        (at(slots, EnginePointer::HostInitializeGameDll).pattern_index == Some(0usize) && at(slots, EnginePointer::LoadEntityDlls).address is Some) ==> derived_slot(slots, EnginePointer::LoadEntityDlls, base, memory) == at(slots, EnginePointer::LoadEntityDlls),
        (!(at(slots, EnginePointer::HostInitializeGameDll).pattern_index == Some(0usize))) ==> derived_slot(slots, EnginePointer::LoadEntityDlls, base, memory) == at(slots, EnginePointer::LoadEntityDlls),
        (at(slots, EnginePointer::HostInitializeGameDll).pattern_index == Some(0usize)) ==> derived_slot(slots, EnginePointer::GEntityInterface, base, memory) == set_slot(read_at(at(slots, EnginePointer::HostInitializeGameDll), base, memory, 75)),
        (!(at(slots, EnginePointer::HostInitializeGameDll).pattern_index == Some(0usize))) ==> derived_slot(slots, EnginePointer::GEntityInterface, base, memory) == at(slots, EnginePointer::GEntityInterface),
        (at(slots, EnginePointer::SvFrame).pattern_index == Some(0usize)) ==> derived_slot(slots, EnginePointer::HostFrametime, base, memory) == set_slot(read_at(at(slots, EnginePointer::SvFrame), base, memory, 11)),
        (!(at(slots, EnginePointer::SvFrame).pattern_index == Some(0usize)) && at(slots, EnginePointer::HostFilterTime).pattern_index == Some(0usize)) ==> derived_slot(slots, EnginePointer::HostFrametime, base, memory) == set_slot(read_at(at(slots, EnginePointer::HostFilterTime), base, memory, 64)),
        (!(at(slots, EnginePointer::SvFrame).pattern_index == Some(0usize)) && !(at(slots, EnginePointer::HostFilterTime).pattern_index == Some(0usize)) && at(slots, EnginePointer::HostFilterTime).pattern_index == Some(1usize)) ==> derived_slot(slots, EnginePointer::HostFrametime, base, memory) == set_slot(read_at(at(slots, EnginePointer::HostFilterTime), base, memory, 65)),
        (!(at(slots, EnginePointer::SvFrame).pattern_index == Some(0usize)) && !(at(slots, EnginePointer::HostFilterTime).pattern_index == Some(0usize)) && !(at(slots, EnginePointer::HostFilterTime).pattern_index == Some(1usize))) ==> derived_slot(slots, EnginePointer::HostFrametime, base, memory) == at(slots, EnginePointer::HostFrametime),
        (at(slots, EnginePointer::HostFilterTime).pattern_index == Some(0usize)) ==> derived_slot(slots, EnginePointer::Realtime, base, memory) == set_slot(read_at(at(slots, EnginePointer::HostFilterTime), base, memory, 70)),
        (!(at(slots, EnginePointer::HostFilterTime).pattern_index == Some(0usize)) && at(slots, EnginePointer::HostFilterTime).pattern_index == Some(1usize)) ==> derived_slot(slots, EnginePointer::Realtime, base, memory) == set_slot(read_at(at(slots, EnginePointer::HostFilterTime), base, memory, 71)),
        (!(at(slots, EnginePointer::HostFilterTime).pattern_index == Some(0usize)) && !(at(slots, EnginePointer::HostFilterTime).pattern_index == Some(1usize))) ==> derived_slot(slots, EnginePointer::Realtime, base, memory) == at(slots, EnginePointer::Realtime),
        (at(slots, EnginePointer::HostNextDemo).pattern_index == Some(0usize)) ==> derived_slot(slots, EnginePointer::CbufInsertText, base, memory) == set_slot(call_from(at(slots, EnginePointer::HostNextDemo), base, memory, 140)),
        (!(at(slots, EnginePointer::HostNextDemo).pattern_index == Some(0usize)) && at(slots, EnginePointer::HostNextDemo).pattern_index == Some(1usize)) ==> derived_slot(slots, EnginePointer::CbufInsertText, base, memory) == set_slot(call_from(at(slots, EnginePointer::HostNextDemo), base, memory, 137)),
        (!(at(slots, EnginePointer::HostNextDemo).pattern_index == Some(0usize)) && !(at(slots, EnginePointer::HostNextDemo).pattern_index == Some(1usize))) ==> derived_slot(slots, EnginePointer::CbufInsertText, base, memory) == at(slots, EnginePointer::CbufInsertText),
        (at(slots, EnginePointer::HostNextDemo).pattern_index == Some(0usize)) ==> derived_slot(slots, EnginePointer::ClsDemos, base, memory) == set_slot(read_at(at(slots, EnginePointer::HostNextDemo), base, memory, 11)),
        (!(at(slots, EnginePointer::HostNextDemo).pattern_index == Some(0usize)) && at(slots, EnginePointer::HostNextDemo).pattern_index == Some(1usize)) ==> derived_slot(slots, EnginePointer::ClsDemos, base, memory) == set_slot(read_at(at(slots, EnginePointer::HostNextDemo), base, memory, 1)),
        (!(at(slots, EnginePointer::HostNextDemo).pattern_index == Some(0usize)) && !(at(slots, EnginePointer::HostNextDemo).pattern_index == Some(1usize))) ==> derived_slot(slots, EnginePointer::ClsDemos, base, memory) == at(slots, EnginePointer::ClsDemos),
        (at(slots, EnginePointer::HostTellF).pattern_index == Some(0usize)) ==> derived_slot(slots, EnginePointer::CmdArgc, base, memory) == set_slot(call_from(at(slots, EnginePointer::HostTellF), base, memory, 28)),
        (!(at(slots, EnginePointer::HostTellF).pattern_index == Some(0usize)) && at(slots, EnginePointer::HostTellF).pattern_index == Some(1usize)) ==> derived_slot(slots, EnginePointer::CmdArgc, base, memory) == set_slot(call_from(at(slots, EnginePointer::HostTellF), base, memory, 25)),
        (!(at(slots, EnginePointer::HostTellF).pattern_index == Some(0usize)) && !(at(slots, EnginePointer::HostTellF).pattern_index == Some(1usize))) ==> derived_slot(slots, EnginePointer::CmdArgc, base, memory) == at(slots, EnginePointer::CmdArgc),
        (at(slots, EnginePointer::HostTellF).pattern_index == Some(0usize)) ==> derived_slot(slots, EnginePointer::CmdArgv, base, memory) == set_slot(call_from(at(slots, EnginePointer::HostTellF), base, memory, 145)),
        (!(at(slots, EnginePointer::HostTellF).pattern_index == Some(0usize)) && at(slots, EnginePointer::HostTellF).pattern_index == Some(1usize)) ==> derived_slot(slots, EnginePointer::CmdArgv, base, memory) == set_slot(call_from(at(slots, EnginePointer::HostTellF), base, memory, 144)),
        (!(at(slots, EnginePointer::HostTellF).pattern_index == Some(0usize)) && !(at(slots, EnginePointer::HostTellF).pattern_index == Some(1usize))) ==> derived_slot(slots, EnginePointer::CmdArgv, base, memory) == at(slots, EnginePointer::CmdArgv),
        (at(slots, EnginePointer::SvFrame).pattern_index == Some(0usize)) ==> derived_slot(slots, EnginePointer::Sv, base, memory) == set_slot(read_at(at(slots, EnginePointer::SvFrame), base, memory, 1)),
        (!(at(slots, EnginePointer::SvFrame).pattern_index == Some(0usize)) && at(slots, EnginePointer::HostValidSave).pattern_index == Some(0usize)) ==> derived_slot(slots, EnginePointer::Sv, base, memory) == set_slot(read_at(at(slots, EnginePointer::HostValidSave), base, memory, 19)),
        (!(at(slots, EnginePointer::SvFrame).pattern_index == Some(0usize)) && !(at(slots, EnginePointer::HostValidSave).pattern_index == Some(0usize))) ==> derived_slot(slots, EnginePointer::Sv, base, memory) == at(slots, EnginePointer::Sv),
        (at(slots, EnginePointer::HostValidSave).pattern_index == Some(0usize)) ==> derived_slot(slots, EnginePointer::Cls, base, memory) == set_slot(read_at(at(slots, EnginePointer::HostValidSave), base, memory, 69)),
        (!(at(slots, EnginePointer::HostValidSave).pattern_index == Some(0usize))) ==> derived_slot(slots, EnginePointer::Cls, base, memory) == at(slots, EnginePointer::Cls),
        (at(slots, EnginePointer::HostValidSave).pattern_index == Some(0usize) && at(slots, EnginePointer::ConPrintf).address is None) ==> derived_slot(slots, EnginePointer::ConPrintf, base, memory) == set_slot(call_from(at(slots, EnginePointer::HostValidSave), base, memory, 33)),
        (at(slots, EnginePointer::HostValidSave).pattern_index == Some(0usize) && at(slots, EnginePointer::ConPrintf).address is Some) ==> derived_slot(slots, EnginePointer::ConPrintf, base, memory) == at(slots, EnginePointer::ConPrintf),
        (!(at(slots, EnginePointer::HostValidSave).pattern_index == Some(0usize))) ==> derived_slot(slots, EnginePointer::ConPrintf, base, memory) == at(slots, EnginePointer::ConPrintf),
        (at(slots, EnginePointer::GlBeginRendering).pattern_index == Some(0usize) && at(slots, EnginePointer::VideoModeIsWindowed).address is None) ==> derived_slot(slots, EnginePointer::VideoModeIsWindowed, base, memory) == set_slot(call_from(at(slots, EnginePointer::GlBeginRendering), base, memory, 24)),
        (at(slots, EnginePointer::GlBeginRendering).pattern_index == Some(0usize) && at(slots, EnginePointer::VideoModeIsWindowed).address is Some) ==> derived_slot(slots, EnginePointer::VideoModeIsWindowed, base, memory) == at(slots, EnginePointer::VideoModeIsWindowed),
        (!(at(slots, EnginePointer::GlBeginRendering).pattern_index == Some(0usize))) ==> derived_slot(slots, EnginePointer::VideoModeIsWindowed, base, memory) == at(slots, EnginePointer::VideoModeIsWindowed),
        (at(slots, EnginePointer::GlBeginRendering).pattern_index == Some(0usize) && at(slots, EnginePointer::VideoModeGetCurrentVideoMode).address is None) ==> derived_slot(slots, EnginePointer::VideoModeGetCurrentVideoMode, base, memory) == set_slot(call_from(at(slots, EnginePointer::GlBeginRendering), base, memory, 79)),
        (at(slots, EnginePointer::GlBeginRendering).pattern_index == Some(0usize) && at(slots, EnginePointer::VideoModeGetCurrentVideoMode).address is Some) ==> derived_slot(slots, EnginePointer::VideoModeGetCurrentVideoMode, base, memory) == at(slots, EnginePointer::VideoModeGetCurrentVideoMode),
        (!(at(slots, EnginePointer::GlBeginRendering).pattern_index == Some(0usize))) ==> derived_slot(slots, EnginePointer::VideoModeGetCurrentVideoMode, base, memory) == at(slots, EnginePointer::VideoModeGetCurrentVideoMode),
        (at(slots, EnginePointer::GlBeginRendering).pattern_index == Some(0usize)) ==> derived_slot(slots, EnginePointer::WindowRect, base, memory) == set_slot(read_at(at(slots, EnginePointer::GlBeginRendering), base, memory, 43)),
        (!(at(slots, EnginePointer::GlBeginRendering).pattern_index == Some(0usize))) ==> derived_slot(slots, EnginePointer::WindowRect, base, memory) == at(slots, EnginePointer::WindowRect),
        (at(slots, EnginePointer::RSetFrustum).pattern_index == Some(0usize)) ==> derived_slot(slots, EnginePointer::ScrFovValue, base, memory) == set_slot(read_at(at(slots, EnginePointer::RSetFrustum), base, memory, 13)),
        (!(at(slots, EnginePointer::RSetFrustum).pattern_index == Some(0usize)) && at(slots, EnginePointer::RSetFrustum).pattern_index == Some(1usize)) ==> derived_slot(slots, EnginePointer::ScrFovValue, base, memory) == set_slot(read_at(at(slots, EnginePointer::RSetFrustum), base, memory, 10)),
        (!(at(slots, EnginePointer::RSetFrustum).pattern_index == Some(0usize)) && !(at(slots, EnginePointer::RSetFrustum).pattern_index == Some(1usize))) ==> derived_slot(slots, EnginePointer::ScrFovValue, base, memory) == at(slots, EnginePointer::ScrFovValue),
        (at(slots, EnginePointer::SPaintChannels).pattern_index == Some(0usize)) ==> derived_slot(slots, EnginePointer::Paintedtime, base, memory) == set_slot(read_at(at(slots, EnginePointer::SPaintChannels), base, memory, 4)),
        (!(at(slots, EnginePointer::SPaintChannels).pattern_index == Some(0usize))) ==> derived_slot(slots, EnginePointer::Paintedtime, base, memory) == at(slots, EnginePointer::Paintedtime),
        (at(slots, EnginePointer::SPaintChannels).pattern_index == Some(0usize)) ==> derived_slot(slots, EnginePointer::Paintbuffer, base, memory) == set_slot(read_at(at(slots, EnginePointer::SPaintChannels), base, memory, 60)),
        (!(at(slots, EnginePointer::SPaintChannels).pattern_index == Some(0usize))) ==> derived_slot(slots, EnginePointer::Paintbuffer, base, memory) == at(slots, EnginePointer::Paintbuffer),
        (at(slots, EnginePointer::STransferStereo16).pattern_index == Some(0usize)) ==> derived_slot(slots, EnginePointer::Shm, base, memory) == set_slot(read_at(at(slots, EnginePointer::STransferStereo16), base, memory, 337)),
        (!(at(slots, EnginePointer::STransferStereo16).pattern_index == Some(0usize))) ==> derived_slot(slots, EnginePointer::Shm, base, memory) == at(slots, EnginePointer::Shm),
        forall|p: EnginePointer| !(p == EnginePointer::ComGamedir || p == EnginePointer::CmdFunctions || p == EnginePointer::CvarVars || p == EnginePointer::LoadEntityDlls || p == EnginePointer::GEntityInterface || p == EnginePointer::HostFrametime || p == EnginePointer::Realtime || p == EnginePointer::CbufInsertText || p == EnginePointer::ClsDemos || p == EnginePointer::CmdArgc || p == EnginePointer::CmdArgv || p == EnginePointer::Sv || p == EnginePointer::Cls || p == EnginePointer::ConPrintf || p == EnginePointer::VideoModeIsWindowed || p == EnginePointer::VideoModeGetCurrentVideoMode || p == EnginePointer::WindowRect || p == EnginePointer::ScrFovValue || p == EnginePointer::Paintedtime || p == EnginePointer::Paintbuffer || p == EnginePointer::Shm) ==> #[trigger] derived_slot(slots, p, base, memory) == at(slots, p),
{
    lemma_reads_agree(at(slots, EnginePointer::ClGameDirF), base, memory, 11);
    lemma_reads_agree(at(slots, EnginePointer::CmdAddMallocCommand), base, memory, 40);
    lemma_reads_agree(at(slots, EnginePointer::CmdAddMallocCommand), base, memory, 43);
    lemma_reads_agree(at(slots, EnginePointer::CvarRegisterVariable), base, memory, 122);
    lemma_reads_agree(at(slots, EnginePointer::CvarRegisterVariable), base, memory, 124);
    lemma_reads_agree(at(slots, EnginePointer::GlBeginRendering), base, memory, 24);
    lemma_reads_agree(at(slots, EnginePointer::GlBeginRendering), base, memory, 43);
    lemma_reads_agree(at(slots, EnginePointer::GlBeginRendering), base, memory, 79);
    lemma_reads_agree(at(slots, EnginePointer::HostFilterTime), base, memory, 64);
    lemma_reads_agree(at(slots, EnginePointer::HostFilterTime), base, memory, 65);
    lemma_reads_agree(at(slots, EnginePointer::HostFilterTime), base, memory, 70);
    lemma_reads_agree(at(slots, EnginePointer::HostFilterTime), base, memory, 71);
    lemma_reads_agree(at(slots, EnginePointer::HostInitializeGameDll), base, memory, 69);
    lemma_reads_agree(at(slots, EnginePointer::HostInitializeGameDll), base, memory, 75);
    lemma_reads_agree(at(slots, EnginePointer::HostNextDemo), base, memory, 1);
    lemma_reads_agree(at(slots, EnginePointer::HostNextDemo), base, memory, 11);
    lemma_reads_agree(at(slots, EnginePointer::HostNextDemo), base, memory, 137);
    lemma_reads_agree(at(slots, EnginePointer::HostNextDemo), base, memory, 140);
    lemma_reads_agree(at(slots, EnginePointer::HostTellF), base, memory, 25);
    lemma_reads_agree(at(slots, EnginePointer::HostTellF), base, memory, 28);
    lemma_reads_agree(at(slots, EnginePointer::HostTellF), base, memory, 144);
    lemma_reads_agree(at(slots, EnginePointer::HostTellF), base, memory, 145);
    lemma_reads_agree(at(slots, EnginePointer::HostValidSave), base, memory, 19);
    lemma_reads_agree(at(slots, EnginePointer::HostValidSave), base, memory, 33);
    lemma_reads_agree(at(slots, EnginePointer::HostValidSave), base, memory, 69);
    lemma_reads_agree(at(slots, EnginePointer::RSetFrustum), base, memory, 10);
    lemma_reads_agree(at(slots, EnginePointer::RSetFrustum), base, memory, 13);
    lemma_reads_agree(at(slots, EnginePointer::SPaintChannels), base, memory, 4);
    lemma_reads_agree(at(slots, EnginePointer::SPaintChannels), base, memory, 60);
    lemma_reads_agree(at(slots, EnginePointer::STransferStereo16), base, memory, 337);
    lemma_reads_agree(at(slots, EnginePointer::SvFrame), base, memory, 1);
    lemma_reads_agree(at(slots, EnginePointer::SvFrame), base, memory, 11);
}

/// The pointers to hook among the first `n` of the list, in list order: those
/// listed, with a hook of the library, whose address is known.
pub open spec fn hook_targets(slots: Seq<Slot>, bxt_compatibility: bool, n: int) -> Seq<EnginePointer>
    decreases n,
{
    if n <= 0 {
        seq![]
    } else {
        let rest = hook_targets(slots, bxt_compatibility, n - 1);
        let p = pointer_at(n - 1);
        if p.listed(bxt_compatibility) && p.hooked() && slots[n - 1].address is Some {
            rest.push(p)
        } else {
            rest
        }
    }
}

/// The slot of `p` after the lookup by symbol, where `lookups` holds, by
/// position, what the dynamic loader gave for each symbol: each listed pointer
/// takes the address that was found, except `cls_demos`, which lies at a fixed
/// distance past `cls`.
pub open spec fn symbol_slot(
    slots: Seq<Slot>,
    lookups: Seq<Option<u32>>,
    p: EnginePointer,
    bxt_compatibility: bool,
) -> Slot {
    if p == EnginePointer::ClsDemos {
        set_slot(displaced(set_slot(non_null(lookups[EnginePointer::Cls.id()])), 15960))
    } else if p.listed(bxt_compatibility) {
        set_slot(non_null(lookups[p.id()]))
    } else {
        at(slots, p)
    }
}

/// The text with every NUL byte replaced by the four characters `\x00`.
pub open spec fn escape_nul(bytes: Seq<u8>) -> Seq<u8>
    decreases bytes.len(),
{
    if bytes.len() == 0 {
        seq![]
    } else {
        escape_nul(bytes.drop_last()) + (if bytes.last() == 0 {
            seq![0x5Cu8, 0x78u8, 0x30u8, 0x30u8]
        } else {
            seq![bytes.last()]
        })
    }
}

/// An escaped text holds no NUL byte, so it can be handed over as a C string.
pub proof fn lemma_escape_nul_has_no_nul(bytes: Seq<u8>)
    ensures
        !escape_nul(bytes).contains(0u8),
    decreases bytes.len(),
{
    if bytes.len() > 0 {
        lemma_escape_nul_has_no_nul(bytes.drop_last());
        let rest = escape_nul(bytes.drop_last());
        let tail = if bytes.last() == 0 {
            seq![0x5Cu8, 0x78u8, 0x30u8, 0x30u8]
        } else {
            seq![bytes.last()]
        };
        assert forall|k: int| 0 <= k < (rest + tail).len() implies (rest + tail)[k] != 0u8 by {
            if k < rest.len() {
                assert((rest + tail)[k] == rest[k]);
                assert(!rest.contains(0u8));
                if rest[k] == 0u8 {
                    assert(rest.contains(rest[k]));
                }
            }
        }
    }
}

/// Escapes every NUL byte of `bytes` as the four characters `\x00`.
pub fn escape_nul_bytes(bytes: &[u8]) -> (r: Vec<u8>)
    ensures
        r@ == escape_nul(bytes@),
{
    let mut out: Vec<u8> = Vec::new();
    let mut i: usize = 0;
    assert(bytes@.take(0) =~= seq![]);
    while i < bytes.len()
        invariant
            i <= bytes@.len(),
            out@ == escape_nul(bytes@.take(i as int)),
        decreases bytes@.len() - i,
    {
        assert(bytes@.take(i + 1).drop_last() =~= bytes@.take(i as int));
        let b = bytes[i];
        if b == 0 {
            out.push(0x5C);
            out.push(0x78);
            out.push(0x30);
            out.push(0x30);
            assert(out@ =~= escape_nul(bytes@.take(i as int)) + seq![0x5Cu8, 0x78u8, 0x30u8, 0x30u8]);
        } else {
            out.push(b);
            assert(out@ =~= escape_nul(bytes@.take(i as int)) + seq![b]);
        }
        i = i + 1;
    }
    assert(bytes@.take(bytes@.len() as int) =~= bytes@);
    out
}

/// The text that the engine's `Con_Printf` prints for `s`: its bytes with NUL
/// bytes escaped as `\x00`; nothing if `Con_Printf` was not found.
pub fn con_print(table: &PointerTable, s: &str) -> (r: Option<Vec<u8>>)
    requires
        table.wf(),
    ensures
        table.slot(EnginePointer::ConPrintf).address is None ==> r is None,
        table.slot(EnginePointer::ConPrintf).address is Some ==> (r matches Some(v) && v@
            == escape_nul(s.spec_bytes())),
{
    if !table.is_set(EnginePointer::ConPrintf) {
        return None;
    }
    Some(escape_nul_bytes(s.as_bytes()))
}

/// The part of `command` that is prepended to the engine's command buffer:
/// everything before the first NUL byte.
pub fn prepend_command(table: &PointerTable, command: &str) -> (r: Vec<u8>)
    requires
        table.wf(),
        table.slot(EnginePointer::CbufInsertText).address is Some,
    ensures
        r@.len() <= command.spec_bytes().len(),
        r@ == command.spec_bytes().take(r@.len() as int),
        !r@.contains(0u8),
        r@.len() == command.spec_bytes().len() || command.spec_bytes()[r@.len() as int] == 0u8,
{
    let bytes = command.as_bytes();
    let mut out: Vec<u8> = Vec::new();
    let mut i: usize = 0;
    while i < bytes.len()
        invariant
            i <= bytes@.len(),
            out@ == bytes@.take(i as int),
            forall|k: int| 0 <= k < i ==> bytes@[k] != 0u8,
        ensures
            i <= bytes@.len(),
            out@ == bytes@.take(i as int),
            forall|k: int| 0 <= k < i ==> bytes@[k] != 0u8,
            i == bytes@.len() || bytes@[i as int] == 0u8,
        decreases bytes@.len() - i,
    {
        if bytes[i] == 0 {
            break;
        }
        out.push(bytes[i]);
        assert(out@ =~= bytes@.take(i + 1));
        i = i + 1;
    }
    assert(!out@.contains(0u8)) by {
        if out@.contains(0u8) {
            let k = choose|k: int| 0 <= k < out@.len() && out@[k] == 0u8;
            assert(bytes@[k] == 0u8);
        }
    }
    out
}


/// A pointer found by its patterns lies in the image: its address is the base
/// plus the offset at which the found pattern occurs; where no pattern of a
/// pointer occurs, its slot is left as it was.
pub proof fn lemma_found_pointer_in_image(
    old: Slot,
    p: EnginePointer,
    base: u32,
    memory: Seq<u8>,
    bxt_compatibility: bool,
)
    requires
        base + memory.len() < 0x1_0000_0000,
    ensures
        ({
            let s = searched_slot(old, p, base, memory, bxt_compatibility);
            let patterns = parse_patterns(p.pattern_texts());
            if p.listed(bxt_compatibility) && find_patterns(memory, patterns) is Some {
                &&& s.address matches Some(a)
                &&& s.pattern_index matches Some(k)
                &&& base <= a <= base + memory.len()
                &&& 0 <= k < patterns.len()
                &&& patterns[k as int] matches Some(pattern)
                &&& matches_at(memory, pattern, a - base)
            } else {
                s == old
            }
        }),
{
    let patterns = parse_patterns(p.pattern_texts());
    lemma_find_patterns(memory, patterns);
}

/// The hooks to install among the first `n` pointers are exactly the listed
/// ones with a hook whose address is known, each once, in list order.
pub proof fn lemma_hook_targets(slots: Seq<Slot>, bxt_compatibility: bool, n: int)
    requires
        0 <= n <= POINTER_COUNT,
        slots.len() == POINTER_COUNT,
    ensures
        forall|p: EnginePointer|
            #[trigger] hook_targets(slots, bxt_compatibility, n).contains(p) <==> (p.id() < n
                && p.listed(bxt_compatibility) && p.hooked() && at(slots, p).address is Some),
        forall|i: int, j: int|
            0 <= i < j < hook_targets(slots, bxt_compatibility, n).len() ==> (#[trigger] hook_targets(
                slots,
                bxt_compatibility,
                n,
            )[i]).id() < (#[trigger] hook_targets(slots, bxt_compatibility, n)[j]).id(),
        forall|i: int|
            0 <= i < hook_targets(slots, bxt_compatibility, n).len() ==> (#[trigger] hook_targets(
                slots,
                bxt_compatibility,
                n,
            )[i]).id() < n,
    decreases n,
{
    lemma_all_pointers();
    if n > 0 {
        lemma_hook_targets(slots, bxt_compatibility, n - 1);
        let rest = hook_targets(slots, bxt_compatibility, n - 1);
        let q = pointer_at(n - 1);
        assert(q.id() == n - 1);
        assert forall|p: EnginePointer|
            #[trigger] hook_targets(slots, bxt_compatibility, n).contains(p) <==> (p.id() < n
                && p.listed(bxt_compatibility) && p.hooked() && at(slots, p).address is Some) by {
            if p.id() == n - 1 {
                assert(pointer_at(p.id()) == p);
                if q.listed(bxt_compatibility) && q.hooked() && slots[n - 1].address is Some {
                    assert(rest.push(q)[rest.len() as int] == q);
                } else {
                    assert(!rest.contains(p));
                }
            } else {
                if q.listed(bxt_compatibility) && q.hooked() && slots[n - 1].address is Some {
                    if rest.push(q).contains(p) {
                        let i = choose|i: int| 0 <= i < rest.push(q).len() && rest.push(q)[i] == p;
                        if i < rest.len() {
                            assert(rest[i] == p);
                        }
                    }
                    if rest.contains(p) {
                        let i = choose|i: int| 0 <= i < rest.len() && rest[i] == p;
                        assert(rest.push(q)[i] == p);
                    }
                }
            }
        }
    }
}

/// The library hooks exactly these sixteen engine functions: CL_Disconnect,
/// Con_ToggleConsole_f, Key_Event, LoadEntityDLLs, Host_FilterTime,
/// Host_NextDemo, Host_Shutdown, Memory_Init, R_SetFrustum, ReleaseEntityDlls,
/// S_PaintChannels, S_TransferStereo16, SV_Frame, Sys_VID_FlipScreen,
/// V_ApplyShake and V_FadeAlpha. So a found Memory_Init is among the hooks to
/// install, and Mem_Free never is.
pub proof fn lemma_hooked_functions(p: EnginePointer, slots: Seq<Slot>, bxt_compatibility: bool)
    requires
        slots.len() == POINTER_COUNT,
    ensures
        p.hooked() <==> (p == EnginePointer::ClDisconnect
            || p == EnginePointer::ConToggleConsoleF
            || p == EnginePointer::KeyEvent
            || p == EnginePointer::LoadEntityDlls
            || p == EnginePointer::HostFilterTime
            || p == EnginePointer::HostNextDemo
            || p == EnginePointer::HostShutdown
            || p == EnginePointer::MemoryInit
            || p == EnginePointer::RSetFrustum
            || p == EnginePointer::ReleaseEntityDlls
            || p == EnginePointer::SPaintChannels
            || p == EnginePointer::STransferStereo16
            || p == EnginePointer::SvFrame
            || p == EnginePointer::SysVidFlipScreen
            || p == EnginePointer::VApplyShake
            || p == EnginePointer::VFadeAlpha),
        at(slots, EnginePointer::MemoryInit).address is Some ==> hook_targets(
            slots,
            bxt_compatibility,
            POINTER_COUNT as int,
        ).contains(EnginePointer::MemoryInit),
        !hook_targets(slots, bxt_compatibility, POINTER_COUNT as int).contains(EnginePointer::MemFree),
{
    lemma_hook_targets(slots, bxt_compatibility, POINTER_COUNT as int);
    lemma_all_pointers();
}

/// Escaping changes only NUL bytes: a text without NUL bytes is handed over
/// as it is; a NUL byte becomes the four characters `\x00` and any other byte
/// stays itself; and the escape of two texts one after the other is the
/// escape of the first followed by that of the second.
pub proof fn lemma_escape_only_nul(s: Seq<u8>, t: Seq<u8>, b: u8)
    ensures
        !s.contains(0u8) ==> escape_nul(s) == s,
        escape_nul(s + t) == escape_nul(s) + escape_nul(t),
        escape_nul(seq![0u8]) == seq![0x5Cu8, 0x78u8, 0x30u8, 0x30u8],
        b != 0 ==> escape_nul(seq![b]) == seq![b],
        escape_nul(Seq::<u8>::empty()) == Seq::<u8>::empty(),
{
    lemma_escape_concat(s, t);
    lemma_escape_identity(s);
    assert(escape_nul(Seq::<u8>::empty()) =~= Seq::<u8>::empty());
    assert(seq![0u8].drop_last() =~= Seq::<u8>::empty());
    assert(seq![b].drop_last() =~= Seq::<u8>::empty());
    assert(seq![0u8].last() == 0u8);
    assert(seq![b].last() == b);
    assert(escape_nul(seq![0u8]) == escape_nul(Seq::<u8>::empty()) + seq![0x5Cu8, 0x78u8, 0x30u8, 0x30u8]);
    assert(escape_nul(seq![b]) == escape_nul(Seq::<u8>::empty()) + (if b == 0 {
        seq![0x5Cu8, 0x78u8, 0x30u8, 0x30u8]
    } else {
        seq![b]
    }));
    assert(escape_nul(seq![0u8]) =~= seq![0x5Cu8, 0x78u8, 0x30u8, 0x30u8]);
    assert(b != 0 ==> escape_nul(seq![b]) =~= seq![b]);
}

proof fn lemma_escape_concat(s: Seq<u8>, t: Seq<u8>)
    ensures
        escape_nul(s + t) == escape_nul(s) + escape_nul(t),
    decreases t.len(),
{
    if t.len() == 0 {
        assert(s + t =~= s);
        assert(escape_nul(t) =~= Seq::<u8>::empty());
        assert(escape_nul(s) + escape_nul(t) =~= escape_nul(s));
    } else {
        lemma_escape_concat(s, t.drop_last());
        assert((s + t).drop_last() =~= s + t.drop_last());
        assert((s + t).last() == t.last());
        let tail = if t.last() == 0 {
            seq![0x5Cu8, 0x78u8, 0x30u8, 0x30u8]
        } else {
            seq![t.last()]
        };
        assert(escape_nul(s + t) == escape_nul(s + t.drop_last()) + tail);
        assert(escape_nul(t) == escape_nul(t.drop_last()) + tail);
        assert(escape_nul(s) + escape_nul(t.drop_last()) + tail =~= escape_nul(s) + (escape_nul(
            t.drop_last(),
        ) + tail));
    }
}

proof fn lemma_escape_identity(s: Seq<u8>)
    ensures
        !s.contains(0u8) ==> escape_nul(s) == s,
    decreases s.len(),
{
    if s.len() > 0 && !s.contains(0u8) {
        let init = s.drop_last();
        assert(!init.contains(0u8)) by {
            if init.contains(0u8) {
                let k = choose|k: int| 0 <= k < init.len() && init[k] == 0u8;
                assert(s[k] == 0u8);
            }
        }
        lemma_escape_identity(init);
        assert(s.last() != 0u8) by {
            if s.last() == 0u8 {
                assert(s[s.len() - 1] == 0u8);
            }
        }
        assert(init.push(s.last()) =~= s);
        assert(escape_nul(s) =~= init + seq![s.last()]);
    }
}

/// What the library knows of every engine pointer, and the original addresses
/// of the functions it has hooked, in hooking order.
pub struct PointerTable {
    slots: Vec<Slot>,
    originals: Vec<u32>,
}

impl PointerTable {
    /// The table has one slot per engine pointer, and no slot holds a null address.
    pub closed spec fn wf(&self) -> bool {
        &&& self.slots@.len() == POINTER_COUNT
        &&& forall|k: int|
            0 <= k < self.slots@.len() ==> (#[trigger] self.slots@[k]).address != Some(0u32)
    }

    /// The slots, in list order.
    pub closed spec fn slots(&self) -> Seq<Slot> {
        self.slots@
    }

    /// The original addresses of the hooked functions, in hooking order.
    pub closed spec fn originals(&self) -> Seq<u32> {
        self.originals@
    }

    /// The slot of `p`.
    pub open spec fn slot(&self, p: EnginePointer) -> Slot {
        at(self.slots(), p)
    }

    /// A well-formed table has one slot per engine pointer, none of them null.
    pub proof fn lemma_wf(&self)
        requires
            self.wf(),
        ensures
            self.slots().len() == POINTER_COUNT,
            forall|p: EnginePointer| #[trigger] self.slot(p).address != Some(0u32),
    {
        lemma_all_pointers();
    }

    /// A table in which nothing is found and nothing is hooked.
    pub fn new() -> (r: PointerTable)
        ensures
            r.wf(),
            r.slots().len() == POINTER_COUNT,
            forall|p: EnginePointer| #[trigger] r.slot(p) == empty_slot(),
            r.originals() == Seq::<u32>::empty(),
    {
        let mut slots: Vec<Slot> = Vec::new();
        let mut k: usize = 0;
        while k < POINTER_COUNT
            invariant
                k <= POINTER_COUNT,
                slots@.len() == k,
                forall|j: int| 0 <= j < k ==> #[trigger] slots@[j] == empty_slot(),
            decreases POINTER_COUNT - k,
        {
            slots.push(Slot { address: None, pattern_index: None });
            k = k + 1;
        }
        proof {
            lemma_all_pointers();
        }
        PointerTable { slots, originals: Vec::new() }
    }

    /// The address of `p`, if it is known.
    pub fn get(&self, p: EnginePointer) -> (r: Option<u32>)
        requires
            self.wf(),
        ensures
            r == self.slot(p).address,
            r != Some(0u32),
    {
        proof {
            lemma_all_pointers();
        }
        self.slots[p.index()].address
    }

    /// The position of the pattern that found `p`, if one did.
    pub fn pattern_index(&self, p: EnginePointer) -> (r: Option<usize>)
        requires
            self.wf(),
        ensures
            r == self.slot(p).pattern_index,
    {
        proof {
            lemma_all_pointers();
        }
        self.slots[p.index()].pattern_index
    }

    /// Whether the address of `p` is known.
    pub fn is_set(&self, p: EnginePointer) -> (r: bool)
        requires
            self.wf(),
        ensures
            r == self.slot(p).address is Some,
    {
        self.get(p).is_some()
    }

    /// The original addresses of the hooked functions, in hooking order.
    pub fn hooked_originals(&self) -> (r: &Vec<u32>)
        ensures
            r@ == self.originals(),
    {
        &self.originals
    }

    fn put(&mut self, p: EnginePointer, s: Slot)
        requires
            old(self).wf(),
            s.address != Some(0u32),
        ensures
            final(self).wf(),
            final(self).slots() == old(self).slots().update(p.id(), s),
            final(self).originals() == old(self).originals(),
    {
        proof {
            lemma_all_pointers();
        }
        let i = p.index();
        self.slots.set(i, s);
    }

    fn read_pointer_at(&self, source: EnginePointer, base: u32, memory: &[u8], offset: u32) -> (r:
        Option<u32>)
        requires
            self.wf(),
        ensures
            r == read_pointer(self.slot(source), base, memory@, offset as int),
    {
        match self.get(source) {
            Some(a) => non_null_exec(read_image(base, memory, a as u64 + offset as u64)),
            None => None,
        }
    }

    fn call_target_at(&self, source: EnginePointer, base: u32, memory: &[u8], offset: u32) -> (r:
        Option<u32>)
        requires
            self.wf(),
        ensures
            r == call_target(self.slot(source), base, memory@, offset as int),
    {
        match self.get(source) {
            Some(a) => match read_image(base, memory, a as u64 + offset as u64) {
                Some(rel) => {
                    let sum = a as u64 + offset as u64 + 4 + rel as u64;
                    non_null_exec(Some((sum % 0x1_0000_0000) as u32))
                },
                None => None,
            },
            None => None,
        }
    }

    fn by_offset(&self, source: EnginePointer, base: u32, memory: &[u8], offset: u32) -> (r: Slot)
        requires
            self.wf(),
        ensures
            r == set_slot(read_pointer(self.slot(source), base, memory@, offset as int)),
            r.address != Some(0u32),
    {
        Slot { address: self.read_pointer_at(source, base, memory, offset), pattern_index: None }
    }

    fn by_relative_call(&self, source: EnginePointer, base: u32, memory: &[u8], offset: u32) -> (r:
        Slot)
        requires
            self.wf(),
        ensures
            r == set_slot(call_target(self.slot(source), base, memory@, offset as int)),
            r.address != Some(0u32),
    {
        Slot { address: self.call_target_at(source, base, memory, offset), pattern_index: None }
    }

    /// The slot of `p` once the pointers read from the code of located functions are filled in.
    fn derived(&self, p: EnginePointer, base: u32, memory: &[u8]) -> (r: Slot)
        requires
            self.wf(),
        ensures
            r == derived_slot(self.slots(), p, base, memory@),
            r.address != Some(0u32),
    {
        proof {
            lemma_all_pointers();
        }
        let current = self.slots[p.index()];
        let unset = current.address.is_none();
        match p {
            EnginePointer::ComGamedir => match self.pattern_index(EnginePointer::ClGameDirF) {
                Some(0) => self.by_offset(EnginePointer::ClGameDirF, base, memory, 11),
                _ => current,
            },
            EnginePointer::CmdFunctions => match self.pattern_index(
                EnginePointer::CmdAddMallocCommand,
            ) {
                Some(0) => self.by_offset(EnginePointer::CmdAddMallocCommand, base, memory, 43),
                Some(1) => self.by_offset(EnginePointer::CmdAddMallocCommand, base, memory, 40),
                _ => current,
            },
            EnginePointer::CvarVars => match self.pattern_index(
                EnginePointer::CvarRegisterVariable,
            ) {
                Some(0) => self.by_offset(EnginePointer::CvarRegisterVariable, base, memory, 124),
                Some(1) => self.by_offset(EnginePointer::CvarRegisterVariable, base, memory, 122),
                _ => current,
            },
            EnginePointer::LoadEntityDlls => match self.pattern_index(
                EnginePointer::HostInitializeGameDll,
            ) {
                Some(0) if unset => self.by_relative_call(
                    EnginePointer::HostInitializeGameDll,
                    base,
                    memory,
                    69,
                ),
                _ => current,
            },
            EnginePointer::GEntityInterface => match self.pattern_index(
                EnginePointer::HostInitializeGameDll,
            ) {
                Some(0) => self.by_offset(EnginePointer::HostInitializeGameDll, base, memory, 75),
                _ => current,
            },
            EnginePointer::HostFrametime => match self.pattern_index(EnginePointer::SvFrame) {
                Some(0) => self.by_offset(EnginePointer::SvFrame, base, memory, 11),
                _ => match self.pattern_index(EnginePointer::HostFilterTime) {
                    Some(0) => self.by_offset(EnginePointer::HostFilterTime, base, memory, 64),
                    Some(1) => self.by_offset(EnginePointer::HostFilterTime, base, memory, 65),
                    _ => current,
                },
            },
            EnginePointer::Realtime => match self.pattern_index(EnginePointer::HostFilterTime) {
                Some(0) => self.by_offset(EnginePointer::HostFilterTime, base, memory, 70),
                Some(1) => self.by_offset(EnginePointer::HostFilterTime, base, memory, 71),
                _ => current,
            },
            EnginePointer::CbufInsertText => match self.pattern_index(EnginePointer::HostNextDemo) {
                Some(0) => self.by_relative_call(EnginePointer::HostNextDemo, base, memory, 140),
                Some(1) => self.by_relative_call(EnginePointer::HostNextDemo, base, memory, 137),
                _ => current,
            },
            EnginePointer::ClsDemos => match self.pattern_index(EnginePointer::HostNextDemo) {
                Some(0) => self.by_offset(EnginePointer::HostNextDemo, base, memory, 11),
                Some(1) => self.by_offset(EnginePointer::HostNextDemo, base, memory, 1),
                _ => current,
            },
            EnginePointer::CmdArgc => match self.pattern_index(EnginePointer::HostTellF) {
                Some(0) => self.by_relative_call(EnginePointer::HostTellF, base, memory, 28),
                Some(1) => self.by_relative_call(EnginePointer::HostTellF, base, memory, 25),
                _ => current,
            },
            EnginePointer::CmdArgv => match self.pattern_index(EnginePointer::HostTellF) {
                Some(0) => self.by_relative_call(EnginePointer::HostTellF, base, memory, 145),
                Some(1) => self.by_relative_call(EnginePointer::HostTellF, base, memory, 144),
                _ => current,
            },
            EnginePointer::Sv => match self.pattern_index(EnginePointer::SvFrame) {
                Some(0) => self.by_offset(EnginePointer::SvFrame, base, memory, 1),
                _ => match self.pattern_index(EnginePointer::HostValidSave) {
                    Some(0) => self.by_offset(EnginePointer::HostValidSave, base, memory, 19),
                    _ => current,
                },
            },
            EnginePointer::Cls => match self.pattern_index(EnginePointer::HostValidSave) {
                Some(0) => self.by_offset(EnginePointer::HostValidSave, base, memory, 69),
                _ => current,
            },
            EnginePointer::ConPrintf => match self.pattern_index(EnginePointer::HostValidSave) {
                Some(0) if unset => self.by_relative_call(
                    EnginePointer::HostValidSave,
                    base,
                    memory,
                    33,
                ),
                _ => current,
            },
            EnginePointer::VideoModeIsWindowed => match self.pattern_index(
                EnginePointer::GlBeginRendering,
            ) {
                Some(0) if unset => self.by_relative_call(
                    EnginePointer::GlBeginRendering,
                    base,
                    memory,
                    24,
                ),
                _ => current,
            },
            EnginePointer::VideoModeGetCurrentVideoMode => match self.pattern_index(
                EnginePointer::GlBeginRendering,
            ) {
                Some(0) if unset => self.by_relative_call(
                    EnginePointer::GlBeginRendering,
                    base,
                    memory,
                    79,
                ),
                _ => current,
            },
            EnginePointer::WindowRect => match self.pattern_index(EnginePointer::GlBeginRendering) {
                Some(0) => self.by_offset(EnginePointer::GlBeginRendering, base, memory, 43),
                _ => current,
            },
            EnginePointer::ScrFovValue => match self.pattern_index(EnginePointer::RSetFrustum) {
                Some(0) => self.by_offset(EnginePointer::RSetFrustum, base, memory, 13),
                Some(1) => self.by_offset(EnginePointer::RSetFrustum, base, memory, 10),
                _ => current,
            },
            EnginePointer::Paintedtime => match self.pattern_index(EnginePointer::SPaintChannels) {
                Some(0) => self.by_offset(EnginePointer::SPaintChannels, base, memory, 4),
                _ => current,
            },
            EnginePointer::Paintbuffer => match self.pattern_index(EnginePointer::SPaintChannels) {
                Some(0) => self.by_offset(EnginePointer::SPaintChannels, base, memory, 60),
                _ => current,
            },
            EnginePointer::Shm => match self.pattern_index(EnginePointer::STransferStereo16) {
                Some(0) => self.by_offset(EnginePointer::STransferStereo16, base, memory, 337),
                _ => current,
            },
            _ => current,
        }
    }

    /// Fills in every pointer that is read from the code of a located function.
    fn apply_derivations(&mut self, base: u32, memory: &[u8])
        requires
            old(self).wf(),
        ensures
            final(self).wf(),
            forall|p: EnginePointer| #[trigger]
                final(self).slot(p) == derived_slot(old(self).slots(), p, base, memory@),
            final(self).originals() == old(self).originals(),
    {
        let ps = all_engine_pointers();
        let mut slots: Vec<Slot> = Vec::new();
        let mut k: usize = 0;
        proof {
            lemma_all_pointers();
        }
        while k < POINTER_COUNT
            invariant
                self.wf(),
                ps@ == all_pointers(),
                k <= POINTER_COUNT,
                slots@.len() == k,
                forall|j: int|
                    0 <= j < k ==> #[trigger] slots@[j] == derived_slot(
                        self.slots(),
                        pointer_at(j),
                        base,
                        memory@,
                    ),
                forall|j: int| 0 <= j < k ==> (#[trigger] slots@[j]).address != Some(0u32),
            decreases POINTER_COUNT - k,
        {
            let s = self.derived(ps[k], base, memory);
            slots.push(s);
            k = k + 1;
        }
        proof {
            lemma_all_pointers();
        }
        self.slots = slots;
    }

    /// Looks up every listed pointer by its pattern in the image of the engine
    /// mapped at `base` (the bytes `memory`), keeping the old slot where no
    /// pattern occurs.
    fn search(&mut self, base: u32, memory: &[u8], bxt_compatibility: bool)
        requires
            old(self).wf(),
            base != 0,
            base + memory@.len() < 0x1_0000_0000,
        ensures
            final(self).wf(),
            final(self).slots() == searched_slots(old(self).slots(), base, memory@, bxt_compatibility),
            final(self).originals() == old(self).originals(),
    {
        let ps = all_engine_pointers();
        let mut k: usize = 0;
        proof {
            lemma_all_pointers();
        }
        while k < POINTER_COUNT
            invariant
                self.wf(),
                ps@ == all_pointers(),
                k <= POINTER_COUNT,
                base != 0,
                base + memory@.len() < 0x1_0000_0000,
                self.originals() == old(self).originals(),
                old(self).slots().len() == POINTER_COUNT,
                forall|j: int|
                    0 <= j < k ==> #[trigger] self.slots()[j] == searched_slot(
                        old(self).slots()[j],
                        pointer_at(j),
                        base,
                        memory@,
                        bxt_compatibility,
                    ),
                forall|j: int| k <= j < POINTER_COUNT ==> #[trigger] self.slots()[j] == old(
                    self,
                ).slots()[j],
            decreases POINTER_COUNT - k,
        {
            proof {
                lemma_all_pointers();
            }
            let p = ps[k];
            if p.is_listed(bxt_compatibility) {
                let patterns = p.patterns();
                match patterns.find(memory) {
                    Some((offset, index)) => {
                        let address = base + offset as u32;
                        self.put(p, Slot { address: Some(address), pattern_index: Some(index) });
                    },
                    None => {},
                }
            }
            k = k + 1;
        }
        assert(self.slots() =~= searched_slots(old(self).slots(), base, memory@, bxt_compatibility));
    }

    /// Locates the engine pointers in the image of the engine mapped at `base`,
    /// whose bytes are `memory`: first each listed pointer by its patterns,
    /// then the pointers that are read from the code of the functions found,
    /// according to the engine build that the matching pattern belongs to.
    pub fn find_pointers(&mut self, base: u32, memory: &[u8], bxt_compatibility: bool)
        requires
            old(self).wf(),
            base != 0,
            base + memory@.len() < 0x1_0000_0000,
        ensures
            final(self).wf(),
            final(self).slots().len() == POINTER_COUNT,
            forall|p: EnginePointer| #[trigger]
                at(searched_slots(old(self).slots(), base, memory@, bxt_compatibility), p)
                    == searched_slot(old(self).slot(p), p, base, memory@, bxt_compatibility),
            forall|p: EnginePointer| #[trigger]
                final(self).slot(p) == derived_slot(
                    searched_slots(old(self).slots(), base, memory@, bxt_compatibility),
                    p,
                    base,
                    memory@,
                ),
            final(self).originals() == old(self).originals(),
    {
        proof {
            lemma_all_pointers();
        }
        self.search(base, memory, bxt_compatibility);
        self.apply_derivations(base, memory);
    }


    fn displaced_from(&self, source: EnginePointer, delta: u32) -> (r: Option<u32>)
        requires
            self.wf(),
        ensures
            r == displaced(self.slot(source), delta as int),
    {
        match self.get(source) {
            Some(a) => {
                let sum = a as u64 + delta as u64;
                non_null_exec(Some((sum % 0x1_0000_0000) as u32))
            },
            None => None,
        }
    }

    /// Takes the address of each listed pointer from `lookups`, which holds, by
    /// position, what the dynamic loader gave for the pointer's symbol (a null
    /// address counts as not found); then places `cls_demos` at its fixed
    /// distance past `cls`.
    pub fn find_pointers_by_symbol(&mut self, lookups: &Vec<Option<u32>>, bxt_compatibility: bool)
        requires
            old(self).wf(),
            lookups@.len() == POINTER_COUNT,
        ensures
            final(self).wf(),
            final(self).slots().len() == POINTER_COUNT,
            forall|p: EnginePointer| #[trigger]
                final(self).slot(p) == symbol_slot(old(self).slots(), lookups@, p, bxt_compatibility),
            final(self).originals() == old(self).originals(),
    {
        let ps = all_engine_pointers();
        let mut k: usize = 0;
        proof {
            lemma_all_pointers();
        }
        while k < POINTER_COUNT
            invariant
                self.wf(),
                ps@ == all_pointers(),
                lookups@.len() == POINTER_COUNT,
                k <= POINTER_COUNT,
                self.originals() == old(self).originals(),
                old(self).slots().len() == POINTER_COUNT,
                forall|j: int|
                    0 <= j < k ==> #[trigger] self.slots()[j] == (if pointer_at(j).listed(
                        bxt_compatibility,
                    ) {
                        set_slot(non_null(lookups@[j]))
                    } else {
                        old(self).slots()[j]
                    }),
                forall|j: int| k <= j < POINTER_COUNT ==> #[trigger] self.slots()[j] == old(
                    self,
                ).slots()[j],
            decreases POINTER_COUNT - k,
        {
            proof {
                lemma_all_pointers();
            }
            let p = ps[k];
            if p.is_listed(bxt_compatibility) {
                let address = non_null_exec(lookups[k]);
                self.put(p, Slot { address, pattern_index: None });
            }
            k = k + 1;
        }
        let demos = self.displaced_from(EnginePointer::Cls, 15960);
        self.put(EnginePointer::ClsDemos, Slot { address: demos, pattern_index: None });
        proof {
            lemma_all_pointers();
        }
    }

    /// The pointers to hook, in list order: those listed, with a hook of the
    /// library, whose address is known.
    pub fn hooks_to_install(&self, bxt_compatibility: bool) -> (r: Vec<EnginePointer>)
        requires
            self.wf(),
        ensures
            r@ == hook_targets(self.slots(), bxt_compatibility, POINTER_COUNT as int),
    {
        let ps = all_engine_pointers();
        let mut r: Vec<EnginePointer> = Vec::new();
        let mut k: usize = 0;
        proof {
            lemma_all_pointers();
        }
        while k < POINTER_COUNT
            invariant
                self.wf(),
                ps@ == all_pointers(),
                k <= POINTER_COUNT,
                r@ == hook_targets(self.slots(), bxt_compatibility, k as int),
            decreases POINTER_COUNT - k,
        {
            proof {
                lemma_all_pointers();
            }
            let p = ps[k];
            if p.is_listed(bxt_compatibility) && p.has_hook() && self.is_set(p) {
                r.push(p);
            }
            k = k + 1;
        }
        r
    }

    /// Records that the function `p` is now hooked: its original address is kept
    /// for unhooking, and calls to the original go through `trampoline`; the
    /// pattern index stays.
    pub fn hook_installed(&mut self, p: EnginePointer, trampoline: u32)
        requires
            old(self).wf(),
            old(self).slot(p).address is Some,
            trampoline != 0,
        ensures
            final(self).wf(),
            final(self).slots().len() == POINTER_COUNT,
            final(self).slot(p) == (Slot {
                address: Some(trampoline),
                pattern_index: old(self).slot(p).pattern_index,
            }),
            forall|q: EnginePointer| q != p ==> #[trigger] final(self).slot(q) == old(self).slot(q),
            final(self).slots() == old(self).slots().update(
                p.id(),
                Slot { address: Some(trampoline), pattern_index: old(self).slot(p).pattern_index },
            ),
            final(self).originals() == old(self).originals().push(
                old(self).slot(p).address->Some_0,
            ),
    {
        let original = match self.get(p) {
            Some(a) => a,
            None => 0,
        };
        let index = self.pattern_index(p);
        self.put(p, Slot { address: Some(trampoline), pattern_index: index });
        self.originals.push(original);
        proof {
            lemma_all_pointers();
            assert forall|q: EnginePointer| q != p implies #[trigger] self.slot(q) == old(self).slot(q) by {
                if q.id() == p.id() {
                    assert(pointer_at(q.id()) == q);
                    assert(pointer_at(p.id()) == p);
                }
            }
        }
    }

    /// Forgets every listed pointer and hands back the original addresses of
    /// the hooked functions, in hooking order, for unhooking.
    pub fn reset_pointers(&mut self, bxt_compatibility: bool) -> (r: Vec<u32>)
        requires
            old(self).wf(),
        ensures
            final(self).wf(),
            final(self).slots().len() == POINTER_COUNT,
            r@ == old(self).originals(),
            final(self).originals() == Seq::<u32>::empty(),
            forall|p: EnginePointer| #[trigger]
                final(self).slot(p) == (if p.listed(bxt_compatibility) {
                    empty_slot()
                } else {
                    old(self).slot(p)
                }),
    {
        let ps = all_engine_pointers();
        let mut k: usize = 0;
        proof {
            lemma_all_pointers();
        }
        while k < POINTER_COUNT
            invariant
                self.wf(),
                ps@ == all_pointers(),
                k <= POINTER_COUNT,
                self.originals() == old(self).originals(),
                old(self).slots().len() == POINTER_COUNT,
                forall|j: int|
                    0 <= j < k ==> #[trigger] self.slots()[j] == (if pointer_at(j).listed(
                        bxt_compatibility,
                    ) {
                        empty_slot()
                    } else {
                        old(self).slots()[j]
                    }),
                forall|j: int| k <= j < POINTER_COUNT ==> #[trigger] self.slots()[j] == old(
                    self,
                ).slots()[j],
            decreases POINTER_COUNT - k,
        {
            proof {
                lemma_all_pointers();
            }
            let p = ps[k];
            if p.is_listed(bxt_compatibility) {
                self.put(p, Slot { address: None, pattern_index: None });
            }
            k = k + 1;
        }
        let mut originals: Vec<u32> = Vec::new();
        let ghost before = self.slots();
        std::mem::swap(&mut originals, &mut self.originals);
        assert(self.slots() == before);
        proof {
            lemma_all_pointers();
        }
        assert forall|p: EnginePointer| #[trigger]
            self.slot(p) == (if p.listed(bxt_compatibility) {
                empty_slot()
            } else {
                old(self).slot(p)
            }) by {
            assert(self.slots()[p.id()] == before[p.id()]);
            assert(pointer_at(p.id()) == p);
        }
        originals
    }

}

} // verus!
