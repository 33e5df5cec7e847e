//! Frame capture through OpenGL: the calls that import the memory and the
//! semaphore shared with Vulkan, those that copy each frame into the shared
//! texture, and those that release the objects again. Every call is followed
//! by a check of the OpenGL error flag; the first error ends the sequence.
//!
//! The calls themselves are made by the caller: a run hands out one call at a
//! time and takes back what OpenGL answered.
use vstd::prelude::*;
use vstd::string::StringSliceAdditionalSpecFns;

use crate::main_thread_ref_cell::MainThreadMarker;

verus! {

/// `GL_NO_ERROR`.
pub const NO_ERROR: u32 = 0;

/// `GL_INVALID_ENUM`.
pub const INVALID_ENUM: u32 = 0x0500;

/// `GL_INVALID_VALUE`.
pub const INVALID_VALUE: u32 = 0x0501;

/// `GL_INVALID_OPERATION`.
pub const INVALID_OPERATION: u32 = 0x0502;

/// `GL_STACK_OVERFLOW`.
pub const STACK_OVERFLOW: u32 = 0x0503;

/// `GL_STACK_UNDERFLOW`.
pub const STACK_UNDERFLOW: u32 = 0x0504;

/// `GL_OUT_OF_MEMORY`.
pub const OUT_OF_MEMORY: u32 = 0x0505;

/// `GL_INVALID_FRAMEBUFFER_OPERATION`.
pub const INVALID_FRAMEBUFFER_OPERATION: u32 = 0x0506;

/// `GL_TEXTURE_2D`.
pub const TEXTURE_2D: u32 = 0x0DE1;

/// `GL_NEAREST`.
pub const NEAREST: u32 = 0x2600;

/// `GL_COLOR_BUFFER_BIT`.
pub const COLOR_BUFFER_BIT: u32 = 0x4000;

/// `GL_RGBA8`.
pub const RGBA8: u32 = 0x8058;

/// `GL_TEXTURE_BINDING_2D`.
pub const TEXTURE_BINDING_2D: u32 = 0x8069;

/// `GL_DRAW_FRAMEBUFFER_BINDING`.
pub const DRAW_FRAMEBUFFER_BINDING: u32 = 0x8CA6;

/// `GL_DRAW_FRAMEBUFFER`.
pub const DRAW_FRAMEBUFFER: u32 = 0x8CA9;

/// `GL_COLOR_ATTACHMENT0`.
pub const COLOR_ATTACHMENT0: u32 = 0x8CE0;

/// `GL_DEDICATED_MEMORY_OBJECT_EXT`.
pub const DEDICATED_MEMORY_OBJECT_EXT: u32 = 0x9581;

/// `GL_HANDLE_TYPE_OPAQUE_FD_EXT`.
pub const HANDLE_TYPE_OPAQUE_FD_EXT: u32 = 0x9586;

/// `GL_HANDLE_TYPE_OPAQUE_WIN32_EXT`.
pub const HANDLE_TYPE_OPAQUE_WIN32_EXT: u32 = 0x9587;

/// `GL_LAYOUT_GENERAL_EXT`.
pub const LAYOUT_GENERAL_EXT: u32 = 0x958D;

/// `GL_LAYOUT_TRANSFER_SRC_EXT`.
pub const LAYOUT_TRANSFER_SRC_EXT: u32 = 0x9592;

/// The name that error messages give an OpenGL error code.
pub open spec fn error_name_of(code: u32) -> &'static str {
    if code == INVALID_ENUM {
        "GL_INVALID_ENUM"
    } else if code == INVALID_VALUE {
        "GL_INVALID_VALUE"
    } else if code == INVALID_OPERATION {
        "GL_INVALID_OPERATION"
    } else if code == INVALID_FRAMEBUFFER_OPERATION {
        "GL_INVALID_FRAMEBUFFER_OPERATION"
    } else if code == STACK_OVERFLOW {
        "GL_STACK_OVERFLOW"
    } else if code == STACK_UNDERFLOW {
        "GL_STACK_UNDERFLOW"
    } else if code == OUT_OF_MEMORY {
        "GL_OUT_OF_MEMORY"
    } else {
        "unknown"
    }
}

/// The name that error messages give an OpenGL error code.
pub fn error_name(code: u32) -> (r: &'static str)
    ensures
        r == error_name_of(code),
{
    if code == INVALID_ENUM {
        "GL_INVALID_ENUM"
    } else if code == INVALID_VALUE {
        "GL_INVALID_VALUE"
    } else if code == INVALID_OPERATION {
        "GL_INVALID_OPERATION"
    } else if code == INVALID_FRAMEBUFFER_OPERATION {
        "GL_INVALID_FRAMEBUFFER_OPERATION"
    } else if code == STACK_OVERFLOW {
        "GL_STACK_OVERFLOW"
    } else if code == STACK_UNDERFLOW {
        "GL_STACK_UNDERFLOW"
    } else if code == OUT_OF_MEMORY {
        "GL_OUT_OF_MEMORY"
    } else {
        "unknown"
    }
}


/// The decimal digits of `n`, most significant first, without leading zeros.
pub open spec fn decimal_digits(n: nat) -> Seq<u8>
    decreases n,
{
    if n < 10 {
        seq![(0x30 + n) as u8]
    } else {
        decimal_digits(n / 10).push((0x30 + n % 10) as u8)
    }
}

/// The lower-case hexadecimal digit of `d`, for `d` below 16.
pub open spec fn hex_digit_char(d: nat) -> u8 {
    if d < 10 {
        (0x30 + d) as u8
    } else {
        (0x57 + d) as u8
    }
}

/// The lower-case hexadecimal digits of `n`, most significant first, without
/// leading zeros.
pub open spec fn hex_digits(n: nat) -> Seq<u8>
    decreases n,
{
    if n < 16 {
        seq![hex_digit_char(n)]
    } else {
        hex_digits(n / 16).push(hex_digit_char(n % 16))
    }
}

/// The message of an OpenGL error: `OpenGL error: NAME - DECIMAL (0xHEX)`.
pub open spec fn error_message_of(code: u32) -> Seq<u8> {
    "OpenGL error: ".spec_bytes() + error_name_of(code).spec_bytes() + " - ".spec_bytes()
        + decimal_digits(code as nat) + " (0x".spec_bytes() + hex_digits(code as nat)
        + ")".spec_bytes()
}

fn decimal(n: u32) -> (r: Vec<u8>)
    ensures
        r@ == decimal_digits(n as nat),
    decreases n,
{
    if n < 10 {
        vec![0x30 + n as u8]
    } else {
        let mut v = decimal(n / 10);
        v.push(0x30 + (n % 10) as u8);
        v
    }
}

fn hex(n: u32) -> (r: Vec<u8>)
    ensures
        r@ == hex_digits(n as nat),
    decreases n,
{
    let low = n % 16;
    let digit = if low < 10 {
        0x30 + low as u8
    } else {
        0x57 + low as u8
    };
    if n < 16 {
        vec![digit]
    } else {
        let mut v = hex(n / 16);
        v.push(digit);
        v
    }
}

fn append_bytes(out: &mut Vec<u8>, bytes: &[u8])
    ensures
        final(out)@ == old(out)@ + bytes@,
{
    let mut i: usize = 0;
    while i < bytes.len()
        invariant
            i <= bytes@.len(),
            out@ == old(out)@ + bytes@.take(i as int),
        decreases bytes@.len() - i,
    {
        out.push(bytes[i]);
        assert(bytes@.take(i + 1) =~= bytes@.take(i as int).push(bytes@[i as int]));
        i = i + 1;
    }
    assert(bytes@.take(bytes@.len() as int) =~= bytes@);
}

/// The message of an OpenGL error, as text: `OpenGL error: NAME - DECIMAL (0xHEX)`,
/// for instance `OpenGL error: GL_INVALID_ENUM - 1280 (0x500)`.
pub fn error_message(code: u32) -> (r: Vec<u8>)
    ensures
        r@ == error_message_of(code),
{
    let mut out: Vec<u8> = Vec::new();
    append_bytes(&mut out, "OpenGL error: ".as_bytes());
    append_bytes(&mut out, error_name(code).as_bytes());
    append_bytes(&mut out, " - ".as_bytes());
    let d = decimal(code);
    append_bytes(&mut out, d.as_slice());
    append_bytes(&mut out, " (0x".as_bytes());
    let h = hex(code);
    append_bytes(&mut out, h.as_slice());
    append_bytes(&mut out, ")".as_bytes());
    assert(out@ =~= error_message_of(code));
    out
}

/// The verdict on the value of the OpenGL error flag: success for `GL_NO_ERROR`,
/// otherwise the error code.
pub fn check(error: u32) -> (r: Result<(), u32>)
    ensures
        error == NO_ERROR ==> r is Ok,
        error != NO_ERROR ==> r == Err::<(), u32>(error),
{
    if error == NO_ERROR {
        Ok(())
    } else {
        Err(error)
    }
}

/// A handle to memory or a semaphore exported by Vulkan: a file descriptor or
/// a Windows handle, held as its integer value.
pub type ExternalObject = i64;

/// How the handles to the memory and semaphore exported by Vulkan are shared.
#[derive(Clone, Copy, PartialEq, Eq, Structural, Debug)]
pub enum HandleKind {
    /// A file descriptor (Unix).
    OpaqueFd,
    /// A Windows handle.
    OpaqueWin32,
}

/// The OpenGL handle type for a kind of handle.
pub open spec fn handle_type_of(kind: HandleKind) -> u32 {
    match kind {
        HandleKind::OpaqueFd => HANDLE_TYPE_OPAQUE_FD_EXT,
        HandleKind::OpaqueWin32 => HANDLE_TYPE_OPAQUE_WIN32_EXT,
    }
}

fn handle_type(kind: HandleKind) -> (r: u32)
    ensures
        r == handle_type_of(kind),
{
    match kind {
        HandleKind::OpaqueFd => HANDLE_TYPE_OPAQUE_FD_EXT,
        HandleKind::OpaqueWin32 => HANDLE_TYPE_OPAQUE_WIN32_EXT,
    }
}

/// One OpenGL call. Calls that create or delete objects do so for one object.
#[derive(Clone, Copy, PartialEq, Eq, Structural, Debug)]
pub enum GlCall {
    /// `glGetError()`.
    GetError,
    /// `glWaitSemaphoreEXT(semaphore, 0, NULL, 1, &texture, &layout)`.
    WaitSemaphore { semaphore: u32, texture: u32, layout: u32 },
    /// `glSignalSemaphoreEXT(semaphore, 0, NULL, 1, &texture, &layout)`.
    SignalSemaphore { semaphore: u32, texture: u32, layout: u32 },
    /// `glGetIntegerv(pname, &value)`.
    GetIntegerv { pname: u32 },
    /// `glBindFramebuffer(target, framebuffer)`.
    BindFramebuffer { target: u32, framebuffer: u32 },
    /// `glFramebufferTexture2D(target, attachment, textarget, texture, level)`.
    FramebufferTexture2D { target: u32, attachment: u32, textarget: u32, texture: u32, level: i32 },
    /// `glBlitFramebuffer(...)`.
    BlitFramebuffer {
        src_x0: i32,
        src_y0: i32,
        src_x1: i32,
        src_y1: i32,
        dst_x0: i32,
        dst_y0: i32,
        dst_x1: i32,
        dst_y1: i32,
        mask: u32,
        filter: u32,
    },
    /// `glFlush()`.
    Flush,
    /// `glCreateMemoryObjectsEXT(1, &name)`.
    CreateMemoryObject,
    /// `glMemoryObjectParameterivEXT(memory_object, pname, &value)`.
    MemoryObjectParameteriv { memory_object: u32, pname: u32, value: i32 },
    /// `glImportMemoryFdEXT` or `glImportMemoryWin32HandleEXT`, by `handle_type`.
    ImportMemory { memory_object: u32, size: u64, handle_type: u32, handle: ExternalObject },
    /// `glGenTextures(1, &name)`.
    GenTexture,
    /// `glBindTexture(target, texture)`.
    BindTexture { target: u32, texture: u32 },
    /// `glTexStorageMem2DEXT(target, levels, internal_format, width, height, memory, offset)`.
    TexStorageMem2D {
        target: u32,
        levels: i32,
        internal_format: u32,
        width: i32,
        height: i32,
        memory: u32,
        offset: u64,
    },
    /// `glGenSemaphoresEXT(1, &name)`.
    GenSemaphore,
    /// `glImportSemaphoreFdEXT` or `glImportSemaphoreWin32HandleEXT`, by `handle_type`.
    ImportSemaphore { semaphore: u32, handle_type: u32, handle: ExternalObject },
    /// `glGenFramebuffers(1, &name)`.
    GenFramebuffer,
    /// `glDeleteFramebuffers(1, &framebuffer)`.
    DeleteFramebuffer { framebuffer: u32 },
    /// `glDeleteSemaphoresEXT(1, &semaphore)`.
    DeleteSemaphore { semaphore: u32 },
    /// `glDeleteTextures(1, &texture)`.
    DeleteTexture { texture: u32 },
    /// `glDeleteMemoryObjectsEXT(1, &memory_object)`.
    DeleteMemoryObject { memory_object: u32 },
}

/// What OpenGL answered to a call.
#[derive(Clone, Copy, PartialEq, Eq, Structural, Debug)]
pub enum GlReply {
    /// The call returns nothing.
    Done,
    /// The value of the error flag, answering `glGetError`.
    Error(u32),
    /// The value written by `glGetIntegerv`.
    Integer(i32),
    /// The name of the object that was created.
    Name(u32),
}

/// The answer has the form that the call gives.
pub open spec fn reply_fits(call: GlCall, reply: GlReply) -> bool {
    match call {
        GlCall::GetError => reply is Error,
        GlCall::GetIntegerv { .. } => reply is Integer,
        GlCall::CreateMemoryObject | GlCall::GenTexture | GlCall::GenSemaphore
        | GlCall::GenFramebuffer => reply is Name,
        _ => reply is Done,
    }
}

/// The value that a run keeps of an answer: a name, or an integer taken as
/// unsigned (as it is when bound again); zero for the others.
pub open spec fn reply_value(reply: GlReply) -> u32 {
    match reply {
        GlReply::Integer(v) => v as u32,
        GlReply::Name(n) => n,
        _ => 0,
    }
}

fn reply_value_exec(reply: GlReply) -> (r: u32)
    ensures
        r == reply_value(reply),
{
    match reply {
        GlReply::Integer(v) => v as u32,
        GlReply::Name(n) => n,
        _ => 0,
    }
}

/// An OpenGL error: the call after which the error flag was set, the source
/// text of that call (the context of the error), and the flag's value.
#[derive(Clone, Copy, PartialEq, Eq, Debug)]
pub struct GlError {
    pub call: GlCall,
    pub context: &'static str,
    pub code: u32,
}

impl GlError {
    /// The message of the error: `OpenGL error: NAME - DECIMAL (0xHEX)`.
    pub fn message(&self) -> (r: Vec<u8>)
        ensures
            r@ == error_message_of(self.code),
    {
        error_message(self.code)
    }
}

/// The OpenGL objects through which frames are captured and handed to Vulkan.
#[derive(PartialEq, Eq, Debug)]
pub struct OpenGL {
    marker: MainThreadMarker,
    width: i32,
    height: i32,
    memory_object: u32,
    texture: u32,
    semaphore: u32,
    framebuffer: u32,
}

impl OpenGL {
    /// The token of the main thread that the objects belong to.
    pub closed spec fn marker_of(&self) -> MainThreadMarker {
        self.marker
    }

    /// The width of the captured frames.
    pub closed spec fn width_of(&self) -> i32 {
        self.width
    }

    /// The height of the captured frames.
    pub closed spec fn height_of(&self) -> i32 {
        self.height
    }

    /// The memory object that holds the shared frame memory.
    pub closed spec fn memory_object_of(&self) -> u32 {
        self.memory_object
    }

    /// The texture backed by the shared frame memory.
    pub closed spec fn texture_of(&self) -> u32 {
        self.texture
    }

    /// The semaphore shared with Vulkan.
    pub closed spec fn semaphore_of(&self) -> u32 {
        self.semaphore
    }

    /// The framebuffer through which frames are copied into the texture.
    pub closed spec fn framebuffer_of(&self) -> u32 {
        self.framebuffer
    }

    /// The width of the captured frames.
    pub fn width(&self) -> (r: i32)
        ensures
            r == self.width_of(),
    {
        self.width
    }

    /// The height of the captured frames.
    pub fn height(&self) -> (r: i32)
        ensures
            r == self.height_of(),
    {
        self.height
    }

    /// The memory object that holds the shared frame memory.
    pub fn memory_object(&self) -> (r: u32)
        ensures
            r == self.memory_object_of(),
    {
        self.memory_object
    }

    /// The texture backed by the shared frame memory.
    pub fn texture(&self) -> (r: u32)
        ensures
            r == self.texture_of(),
    {
        self.texture
    }

    /// The semaphore shared with Vulkan.
    pub fn semaphore(&self) -> (r: u32)
        ensures
            r == self.semaphore_of(),
    {
        self.semaphore
    }

    /// The framebuffer through which frames are copied into the texture.
    pub fn framebuffer(&self) -> (r: u32)
        ensures
            r == self.framebuffer_of(),
    {
        self.framebuffer
    }

    fn duplicate(&self) -> (r: OpenGL)
        ensures
            r == *self,
    {
        OpenGL {
            marker: self.marker,
            width: self.width,
            height: self.height,
            memory_object: self.memory_object,
            texture: self.texture,
            semaphore: self.semaphore,
            framebuffer: self.framebuffer,
        }
    }

    /// The calls that release the objects, most recently created first.
    pub fn delete_calls(&self) -> (r: Vec<GlCall>)
        ensures
            r@ == seq![
                GlCall::DeleteFramebuffer { framebuffer: self.framebuffer_of() },
                GlCall::DeleteSemaphore { semaphore: self.semaphore_of() },
                GlCall::DeleteTexture { texture: self.texture_of() },
                GlCall::DeleteMemoryObject { memory_object: self.memory_object_of() },
            ],
    {
        vec![
            GlCall::DeleteFramebuffer { framebuffer: self.framebuffer },
            GlCall::DeleteSemaphore { semaphore: self.semaphore },
            GlCall::DeleteTexture { texture: self.texture },
            GlCall::DeleteMemoryObject { memory_object: self.memory_object },
        ]
    }
}

/// What the objects are created from: the size of the frames, the size of the
/// shared memory, and the handles to the memory and semaphore that Vulkan exported.
#[derive(Clone, Copy, PartialEq, Eq, Structural, Debug)]
pub struct InitParams {
    pub marker: MainThreadMarker,
    pub width: i32,
    pub height: i32,
    pub size: u64,
    pub external_image_frame_memory: ExternalObject,
    pub external_semaphore: ExternalObject,
    pub handle_kind: HandleKind,
}

/// The sequence of calls that a run makes, between the checks.
pub enum GlTask {
    /// Copying one frame into the shared texture.
    Capture(OpenGL),
    /// Creating the objects.
    Init(InitParams),
}

/// The number of calls of a task.
pub open spec fn task_len(task: GlTask) -> int {
    match task {
        GlTask::Capture(_) => 8,
        GlTask::Init(_) => 11,
    }
}

/// Call `k` of the capture of a frame; `values` holds what the earlier calls returned.
pub open spec fn capture_call(gl: OpenGL, k: int, values: Seq<u32>) -> GlCall {
    if k == 0 {
        GlCall::WaitSemaphore {
            semaphore: gl.semaphore_of(),
            texture: gl.texture_of(),
            layout: LAYOUT_GENERAL_EXT,
        }
    } else if k == 1 {
        GlCall::GetIntegerv { pname: DRAW_FRAMEBUFFER_BINDING }
    } else if k == 2 {
        GlCall::BindFramebuffer { target: DRAW_FRAMEBUFFER, framebuffer: gl.framebuffer_of() }
    } else if k == 3 {
        GlCall::FramebufferTexture2D {
            target: DRAW_FRAMEBUFFER,
            attachment: COLOR_ATTACHMENT0,
            textarget: TEXTURE_2D,
            texture: gl.texture_of(),
            level: 0,
        }
    } else if k == 4 {
        GlCall::BlitFramebuffer {
            src_x0: 0,
            src_y0: 0,
            src_x1: gl.width_of(),
            src_y1: gl.height_of(),
            dst_x0: 0,
            dst_y0: 0,
            dst_x1: gl.width_of(),
            dst_y1: gl.height_of(),
            mask: COLOR_BUFFER_BIT,
            filter: NEAREST,
        }
    } else if k == 5 {
        GlCall::BindFramebuffer { target: DRAW_FRAMEBUFFER, framebuffer: values[1] }
    } else if k == 6 {
        GlCall::SignalSemaphore {
            semaphore: gl.semaphore_of(),
            texture: gl.texture_of(),
            layout: LAYOUT_TRANSFER_SRC_EXT,
        }
    } else {
        GlCall::Flush
    }
}

/// Call `k` of the creation of the objects; `values` holds what the earlier calls returned.
pub open spec fn init_call(p: InitParams, k: int, values: Seq<u32>) -> GlCall {
    if k == 0 {
        GlCall::CreateMemoryObject
    } else if k == 1 {
        GlCall::MemoryObjectParameteriv {
            memory_object: values[0],
            pname: DEDICATED_MEMORY_OBJECT_EXT,
            value: 1,
        }
    } else if k == 2 {
        GlCall::ImportMemory {
            memory_object: values[0],
            size: p.size,
            handle_type: handle_type_of(p.handle_kind),
            handle: p.external_image_frame_memory,
        }
    } else if k == 3 {
        GlCall::GenTexture
    } else if k == 4 {
        GlCall::GetIntegerv { pname: TEXTURE_BINDING_2D }
    } else if k == 5 {
        GlCall::BindTexture { target: TEXTURE_2D, texture: values[3] }
    } else if k == 6 {
        GlCall::TexStorageMem2D {
            target: TEXTURE_2D,
            levels: 1,
            internal_format: RGBA8,
            width: p.width,
            height: p.height,
            memory: values[0],
            offset: 0,
        }
    } else if k == 7 {
        GlCall::BindTexture { target: TEXTURE_2D, texture: values[4] }
    } else if k == 8 {
        GlCall::GenSemaphore
    } else if k == 9 {
        GlCall::ImportSemaphore {
            semaphore: values[8],
            handle_type: handle_type_of(p.handle_kind),
            handle: p.external_semaphore,
        }
    } else {
        GlCall::GenFramebuffer
    }
}

/// Call `k` of a task.
pub open spec fn task_call(task: GlTask, k: int, values: Seq<u32>) -> GlCall {
    match task {
        GlTask::Capture(gl) => capture_call(gl, k, values),
        GlTask::Init(p) => init_call(p, k, values),
    }
}

/// What a task that ran without error gives back.
#[derive(PartialEq, Eq, Debug)]
pub enum GlDone {
    /// A frame was copied.
    Captured,
    /// The objects were created.
    Initialized(OpenGL),
}

/// The objects that the creation made, from the names that it was given.
pub closed spec fn initialized(p: InitParams, values: Seq<u32>) -> OpenGL {
    OpenGL {
        marker: p.marker,
        width: p.width,
        height: p.height,
        memory_object: values[0],
        texture: values[3],
        semaphore: values[8],
        framebuffer: values[10],
    }
}

/// The objects that the creation made: the frame size asked for, and the
/// memory object, texture, semaphore and framebuffer that OpenGL named.
pub proof fn lemma_initialized(p: InitParams, values: Seq<u32>)
    ensures
        initialized(p, values).marker_of() == p.marker,
        initialized(p, values).width_of() == p.width,
        initialized(p, values).height_of() == p.height,
        initialized(p, values).memory_object_of() == values[0],
        initialized(p, values).texture_of() == values[3],
        initialized(p, values).semaphore_of() == values[8],
        initialized(p, values).framebuffer_of() == values[10],
{
}

/// What a task that ran without error gives back.
pub open spec fn task_done(task: GlTask, values: Seq<u32>) -> GlDone {
    match task {
        GlTask::Capture(_) => GlDone::Captured,
        GlTask::Init(p) => GlDone::Initialized(initialized(p, values)),
    }
}


/// The source text of call `k` of the capture of a frame, as error messages cite it.
pub open spec fn capture_call_text(k: int) -> &'static str {
    if k == 0 {
        "gl.WaitSemaphoreEXT(self.semaphore, 0, null(), 1, [self.texture].as_ptr(), [gl::LAYOUT_GENERAL_EXT].as_ptr())"
    } else if k == 1 {
        "gl.GetIntegerv(gl::DRAW_FRAMEBUFFER_BINDING, &mut previous_framebuffer)"
    } else if k == 2 {
        "gl.BindFramebuffer(gl::DRAW_FRAMEBUFFER, self.framebuffer)"
    } else if k == 3 {
        "gl.FramebufferTexture2D(gl::DRAW_FRAMEBUFFER, gl::COLOR_ATTACHMENT0, gl::TEXTURE_2D, self.texture, 0)"
    } else if k == 4 {
        "gl.BlitFramebuffer(0, 0, self.width, self.height, 0, 0, self.width, self.height, gl::COLOR_BUFFER_BIT, gl::NEAREST)"
    } else if k == 5 {
        "gl.BindFramebuffer(gl::DRAW_FRAMEBUFFER, previous_framebuffer as u32)"
    } else if k == 6 {
        "gl.SignalSemaphoreEXT(self.semaphore, 0, null(), 1, [self.texture].as_ptr(), [gl::LAYOUT_TRANSFER_SRC_EXT].as_ptr())"
    } else {
        "gl.Flush()"
    }
}

/// The source text of call `k` of the creation of the objects, as error
/// messages cite it; the imports are written for the kind of handle.
pub open spec fn init_call_text(kind: HandleKind, k: int) -> &'static str {
    if k == 0 {
        "gl.CreateMemoryObjectsEXT(1, &mut memory_object)"
    } else if k == 1 {
        "gl.MemoryObjectParameterivEXT(memory_object, gl::DEDICATED_MEMORY_OBJECT_EXT, &1)"
    } else if k == 2 {
        match kind {
            HandleKind::OpaqueFd => "gl.ImportMemoryFdEXT(memory_object, size, gl::HANDLE_TYPE_OPAQUE_FD_EXT, external_image_frame_memory)",
            HandleKind::OpaqueWin32 => "gl.ImportMemoryWin32HandleEXT(memory_object, size, gl::HANDLE_TYPE_OPAQUE_WIN32_EXT, external_image_frame_memory)",
        }
    } else if k == 3 {
        "gl.GenTextures(1, &mut texture)"
    } else if k == 4 {
        "gl.GetIntegerv(gl::TEXTURE_BINDING_2D, &mut previous_texture)"
    } else if k == 5 {
        "gl.BindTexture(gl::TEXTURE_2D, texture)"
    } else if k == 6 {
        "gl.TexStorageMem2DEXT(gl::TEXTURE_2D, 1, gl::RGBA8, width, height, memory_object, 0)"
    } else if k == 7 {
        "gl.BindTexture(gl::TEXTURE_2D, previous_texture as u32)"
    } else if k == 8 {
        "gl.GenSemaphoresEXT(1, &mut semaphore)"
    } else if k == 9 {
        match kind {
            HandleKind::OpaqueFd => "gl.ImportSemaphoreFdEXT(semaphore, gl::HANDLE_TYPE_OPAQUE_FD_EXT, external_semaphore)",
            HandleKind::OpaqueWin32 => "gl.ImportSemaphoreWin32HandleEXT(semaphore, gl::HANDLE_TYPE_OPAQUE_WIN32_EXT, external_semaphore)",
        }
    } else {
        "gl.GenFramebuffers(1, &mut framebuffer)"
    }
}

/// The source text of call `k` of a task, as error messages cite it.
pub open spec fn task_call_text(task: GlTask, k: int) -> &'static str {
    match task {
        GlTask::Capture(_) => capture_call_text(k),
        GlTask::Init(p) => init_call_text(p.handle_kind, k),
    }
}

fn capture_call_text_exec(k: usize) -> (r: &'static str)
    ensures
        r == capture_call_text(k as int),
{
    if k == 0 {
        "gl.WaitSemaphoreEXT(self.semaphore, 0, null(), 1, [self.texture].as_ptr(), [gl::LAYOUT_GENERAL_EXT].as_ptr())"
    } else if k == 1 {
        "gl.GetIntegerv(gl::DRAW_FRAMEBUFFER_BINDING, &mut previous_framebuffer)"
    } else if k == 2 {
        "gl.BindFramebuffer(gl::DRAW_FRAMEBUFFER, self.framebuffer)"
    } else if k == 3 {
        "gl.FramebufferTexture2D(gl::DRAW_FRAMEBUFFER, gl::COLOR_ATTACHMENT0, gl::TEXTURE_2D, self.texture, 0)"
    } else if k == 4 {
        "gl.BlitFramebuffer(0, 0, self.width, self.height, 0, 0, self.width, self.height, gl::COLOR_BUFFER_BIT, gl::NEAREST)"
    } else if k == 5 {
        "gl.BindFramebuffer(gl::DRAW_FRAMEBUFFER, previous_framebuffer as u32)"
    } else if k == 6 {
        "gl.SignalSemaphoreEXT(self.semaphore, 0, null(), 1, [self.texture].as_ptr(), [gl::LAYOUT_TRANSFER_SRC_EXT].as_ptr())"
    } else {
        "gl.Flush()"
    }
}

fn init_call_text_exec(kind: HandleKind, k: usize) -> (r: &'static str)
    ensures
        r == init_call_text(kind, k as int),
{
    if k == 0 {
        "gl.CreateMemoryObjectsEXT(1, &mut memory_object)"
    } else if k == 1 {
        "gl.MemoryObjectParameterivEXT(memory_object, gl::DEDICATED_MEMORY_OBJECT_EXT, &1)"
    } else if k == 2 {
        match kind {
            HandleKind::OpaqueFd => "gl.ImportMemoryFdEXT(memory_object, size, gl::HANDLE_TYPE_OPAQUE_FD_EXT, external_image_frame_memory)",
            HandleKind::OpaqueWin32 => "gl.ImportMemoryWin32HandleEXT(memory_object, size, gl::HANDLE_TYPE_OPAQUE_WIN32_EXT, external_image_frame_memory)",
        }
    } else if k == 3 {
        "gl.GenTextures(1, &mut texture)"
    } else if k == 4 {
        "gl.GetIntegerv(gl::TEXTURE_BINDING_2D, &mut previous_texture)"
    } else if k == 5 {
        "gl.BindTexture(gl::TEXTURE_2D, texture)"
    } else if k == 6 {
        "gl.TexStorageMem2DEXT(gl::TEXTURE_2D, 1, gl::RGBA8, width, height, memory_object, 0)"
    } else if k == 7 {
        "gl.BindTexture(gl::TEXTURE_2D, previous_texture as u32)"
    } else if k == 8 {
        "gl.GenSemaphoresEXT(1, &mut semaphore)"
    } else if k == 9 {
        match kind {
            HandleKind::OpaqueFd => "gl.ImportSemaphoreFdEXT(semaphore, gl::HANDLE_TYPE_OPAQUE_FD_EXT, external_semaphore)",
            HandleKind::OpaqueWin32 => "gl.ImportSemaphoreWin32HandleEXT(semaphore, gl::HANDLE_TYPE_OPAQUE_WIN32_EXT, external_semaphore)",
        }
    } else {
        "gl.GenFramebuffers(1, &mut framebuffer)"
    }
}

/// Where a run stands.
#[derive(Clone, Copy, PartialEq, Eq, Structural, Debug)]
pub enum RunPhase {
    /// Reading the error flag until it is clear, to drop errors left by others.
    Draining,
    /// Call `k` of the task was handed out.
    Calling(usize),
    /// Call `k` was made, and the error flag is being read.
    Checking(usize),
    /// The run has ended.
    Finished,
}

/// The next thing to do: make a call and answer with its result, or stop
/// with the outcome.
#[derive(PartialEq, Eq, Debug)]
pub enum GlStep {
    Call(GlCall),
    Finished(Result<GlDone, GlError>),
}

/// A run of a task: one call at a time, each task call followed by a check.
pub struct GlRun {
    task: GlTask,
    phase: RunPhase,
    values: Vec<u32>,
}

/// The state of a run.
pub struct GlRunView {
    pub task: GlTask,
    pub phase: RunPhase,
    pub values: Seq<u32>,
}

/// The call that a run in state `v` waits the answer of.
pub open spec fn awaited_call(v: GlRunView) -> GlCall {
    match v.phase {
        RunPhase::Calling(k) => task_call(v.task, k as int, v.values),
        _ => GlCall::GetError,
    }
}

/// The state of a run is consistent: a value for each call made.
pub open spec fn run_wf(v: GlRunView) -> bool {
    match v.phase {
        RunPhase::Draining => v.values.len() == 0,
        RunPhase::Calling(k) => k < task_len(v.task) && v.values.len() == k,
        RunPhase::Checking(k) => k < task_len(v.task) && v.values.len() == k + 1,
        RunPhase::Finished => true,
    }
}

/// One step of a run: the state after the answer `reply`, and what to do next.
/// While draining, a set error flag is read again and a clear one starts the
/// task; after a task call the error flag is read; a set flag ends the run with
/// the error and the call that caused it, a clear one moves on to the next call
/// or ends the run with success.
pub open spec fn run_step(v: GlRunView, reply: GlReply) -> (GlRunView, GlStep) {
    match v.phase {
        RunPhase::Draining => match reply {
            GlReply::Error(e) => if e != NO_ERROR {
                (v, GlStep::Call(GlCall::GetError))
            } else {
                (
                    GlRunView { phase: RunPhase::Calling(0), ..v },
                    GlStep::Call(task_call(v.task, 0, v.values)),
                )
            },
            _ => (v, GlStep::Call(GlCall::GetError)),
        },
        RunPhase::Calling(k) => (
            GlRunView {
                phase: RunPhase::Checking(k),
                values: v.values.push(reply_value(reply)),
                ..v
            },
            GlStep::Call(GlCall::GetError),
        ),
        RunPhase::Checking(k) => {
            let code = match reply {
                GlReply::Error(e) => e,
                _ => NO_ERROR,
            };
            if code != NO_ERROR {
                (
                    GlRunView { phase: RunPhase::Finished, ..v },
                    GlStep::Finished(
                        Err(
                            GlError {
                                call: task_call(v.task, k as int, v.values),
                                context: task_call_text(v.task, k as int),
                                code,
                            },
                        ),
                    ),
                )
            } else if k + 1 == task_len(v.task) {
                (
                    GlRunView { phase: RunPhase::Finished, ..v },
                    GlStep::Finished(Ok(task_done(v.task, v.values))),
                )
            } else {
                (
                    GlRunView { phase: RunPhase::Calling((k + 1) as usize), ..v },
                    GlStep::Call(task_call(v.task, k + 1, v.values)),
                )
            }
        },
        RunPhase::Finished => (v, GlStep::Call(GlCall::GetError)),
    }
}


/// The capture saves the framebuffer binding (call 1), binds its own framebuffer
/// (call 2), and before handing the texture back binds again the framebuffer
/// that was bound before (call 5).
pub proof fn lemma_capture_restores_framebuffer(gl: OpenGL, values: Seq<u32>)
    ensures
        capture_call(gl, 1, values) == (GlCall::GetIntegerv { pname: DRAW_FRAMEBUFFER_BINDING }),
        capture_call(gl, 2, values) == (GlCall::BindFramebuffer {
            target: DRAW_FRAMEBUFFER,
            framebuffer: gl.framebuffer_of(),
        }),
        capture_call(gl, 5, values) == (GlCall::BindFramebuffer {
            target: DRAW_FRAMEBUFFER,
            framebuffer: values[1],
        }),
{
}

/// The creation saves the texture binding (call 4), binds the new texture
/// (call 5) to give it storage, and then binds again the texture that was
/// bound before (call 7).
pub proof fn lemma_init_restores_texture(p: InitParams, values: Seq<u32>)
    ensures
        init_call(p, 4, values) == (GlCall::GetIntegerv { pname: TEXTURE_BINDING_2D }),
        init_call(p, 5, values) == (GlCall::BindTexture { target: TEXTURE_2D, texture: values[3] }),
        init_call(p, 7, values) == (GlCall::BindTexture { target: TEXTURE_2D, texture: values[4] }),
        init_call(p, 3, values) == GlCall::GenTexture,
{
}

/// The state and the steps after a run in state `v` takes the answers
/// `replies` in turn; once the run has ended, it takes no more.
pub open spec fn run_replies(v: GlRunView, replies: Seq<GlReply>) -> (GlRunView, Seq<GlStep>)
    decreases replies.len(),
{
    if replies.len() == 0 || v.phase is Finished {
        (v, seq![])
    } else {
        let (next, step) = run_step(v, replies[0]);
        let (last, steps) = run_replies(next, replies.drop_first());
        (last, seq![step] + steps)
    }
}

/// Whether call `k` of a task returns a value (a name or an integer).
pub open spec fn returns_value(task: GlTask, k: int) -> bool {
    match task {
        GlTask::Capture(_) => k == 1,
        GlTask::Init(_) => k == 0 || k == 3 || k == 4 || k == 8 || k == 10,
    }
}

/// The answer of an OpenGL that reports no error and returns `v` from a call
/// that returns a value.
pub open spec fn clean_answer(call: GlCall, v: u32) -> GlReply {
    match call {
        GlCall::GetError => GlReply::Error(NO_ERROR),
        GlCall::GetIntegerv { .. } => GlReply::Integer(v as i32),
        GlCall::CreateMemoryObject | GlCall::GenTexture | GlCall::GenSemaphore
        | GlCall::GenFramebuffer => GlReply::Name(v),
        _ => GlReply::Done,
    }
}

/// The answers, from call `k` on, of an OpenGL that reports no error and
/// returns the values `vs`.
pub open spec fn clean_replies_from(task: GlTask, vs: Seq<u32>, k: int) -> Seq<GlReply>
    decreases task_len(task) - k,
{
    if k < 0 || k >= task_len(task) {
        seq![]
    } else {
        seq![clean_answer(task_call(task, k, vs), vs[k]), GlReply::Error(NO_ERROR)]
            + clean_replies_from(task, vs, k + 1)
    }
}

/// The steps, from call `k` on, of a run that meets no error: each call is
/// followed by a check, then by the next call, or by success after the last.
pub open spec fn clean_steps_from(task: GlTask, vs: Seq<u32>, k: int) -> Seq<GlStep>
    decreases task_len(task) - k,
{
    if k < 0 || k >= task_len(task) {
        seq![]
    } else {
        seq![
            GlStep::Call(GlCall::GetError),
            if k + 1 < task_len(task) {
                GlStep::Call(task_call(task, k + 1, vs))
            } else {
                GlStep::Finished(Ok(task_done(task, vs)))
            },
        ] + clean_steps_from(task, vs, k + 1)
    }
}

/// The values fit the task: one per call, zero for the calls that return none.
pub open spec fn clean_values(task: GlTask, vs: Seq<u32>) -> bool {
    &&& vs.len() == task_len(task)
    &&& forall|k: int| 0 <= k < vs.len() && !returns_value(task, k) ==> #[trigger] vs[k] == 0
}

proof fn lemma_task_call_prefix(task: GlTask, vs: Seq<u32>, k: int)
    requires
        0 <= k <= vs.len(),
    ensures
        task_call(task, k, vs.take(k)) == task_call(task, k, vs),
{
}

proof fn lemma_clean_answer_value(task: GlTask, vs: Seq<u32>, k: int)
    requires
        clean_values(task, vs),
        0 <= k < task_len(task),
    ensures
        reply_value(clean_answer(task_call(task, k, vs), vs[k])) == vs[k],
        reply_fits(task_call(task, k, vs), clean_answer(task_call(task, k, vs), vs[k])),
{
    let v = vs[k];
    assert((v as i32) as u32 == v) by (bit_vector);
}

proof fn lemma_clean_run_from(task: GlTask, vs: Seq<u32>, k: int)
    requires
        clean_values(task, vs),
        0 <= k < task_len(task),
    ensures
        run_replies(
            GlRunView { task, phase: RunPhase::Calling(k as usize), values: vs.take(k) },
            clean_replies_from(task, vs, k),
        ) == (GlRunView { task, phase: RunPhase::Finished, values: vs }, clean_steps_from(
            task,
            vs,
            k,
        )),
    decreases task_len(task) - k,
{
    let len = task_len(task);
    let s0 = GlRunView { task, phase: RunPhase::Calling(k as usize), values: vs.take(k) };
    let answer = clean_answer(task_call(task, k, vs), vs[k]);
    let replies = clean_replies_from(task, vs, k);
    let rest = clean_replies_from(task, vs, k + 1);
    lemma_clean_answer_value(task, vs, k);
    lemma_task_call_prefix(task, vs, k);
    assert(replies[0] == answer);
    assert(replies.drop_first() =~= seq![GlReply::Error(NO_ERROR)] + rest);
    let s1 = GlRunView {
        task,
        phase: RunPhase::Checking(k as usize),
        values: vs.take(k).push(vs[k]),
    };
    assert(vs.take(k).push(vs[k]) =~= vs.take(k + 1));
    assert(run_step(s0, answer) == (s1, GlStep::Call(GlCall::GetError)));
    let r1 = seq![GlReply::Error(NO_ERROR)] + rest;
    assert(r1[0] == GlReply::Error(NO_ERROR));
    assert(r1.drop_first() =~= rest);
    if k + 1 < len {
        lemma_task_call_prefix(task, vs, k + 1);
        let s2 = GlRunView {
            task,
            phase: RunPhase::Calling((k + 1) as usize),
            values: vs.take(k + 1),
        };
        assert(run_step(s1, GlReply::Error(NO_ERROR)) == (s2, GlStep::Call(
            task_call(task, k + 1, vs),
        )));
        lemma_clean_run_from(task, vs, k + 1);
        assert(run_replies(s1, r1) == (
            GlRunView { task, phase: RunPhase::Finished, values: vs },
            seq![GlStep::Call(task_call(task, k + 1, vs))] + clean_steps_from(task, vs, k + 1),
        ));
    } else {
        assert(vs.take(k + 1) =~= vs);
        assert(rest =~= seq![]);
        let s2 = GlRunView { task, phase: RunPhase::Finished, values: vs };
        assert(run_step(s1, GlReply::Error(NO_ERROR)) == (s2, GlStep::Finished(
            Ok(task_done(task, vs)),
        )));
        assert(run_replies(s2, rest) == (s2, Seq::<GlStep>::empty()));
        assert(run_replies(s1, r1) == (s2, seq![GlStep::Finished(Ok(task_done(task, vs)))]));
        assert(clean_steps_from(task, vs, k + 1) =~= seq![]);
    }
    assert(clean_steps_from(task, vs, k) =~= seq![
        GlStep::Call(GlCall::GetError),
        if k + 1 < len {
            GlStep::Call(task_call(task, k + 1, vs))
        } else {
            GlStep::Finished(Ok(task_done(task, vs)))
        },
    ] + clean_steps_from(task, vs, k + 1));
}

/// Where OpenGL reports no error, a run makes exactly the calls of its task,
/// in order, each followed by a check of the error flag, and ends with success:
/// after the answer that the error flag is clear, the first call; then, for each
/// call, the check and the next call (or success after the last one). What the
/// task gives back is made from the values that OpenGL returned.
pub proof fn lemma_clean_run(task: GlTask, vs: Seq<u32>)
    requires
        clean_values(task, vs),
    ensures
        run_replies(
            GlRunView { task, phase: RunPhase::Draining, values: seq![] },
            seq![GlReply::Error(NO_ERROR)] + clean_replies_from(task, vs, 0),
        ) == (GlRunView { task, phase: RunPhase::Finished, values: vs }, seq![
            GlStep::Call(task_call(task, 0, vs)),
        ] + clean_steps_from(task, vs, 0)),
{
    let s0 = GlRunView { task, phase: RunPhase::Draining, values: seq![] };
    let replies = seq![GlReply::Error(NO_ERROR)] + clean_replies_from(task, vs, 0);
    assert(replies[0] == GlReply::Error(NO_ERROR));
    assert(replies.drop_first() =~= clean_replies_from(task, vs, 0));
    assert(vs.take(0) =~= seq![]);
    lemma_task_call_prefix(task, vs, 0);
    let s1 = GlRunView { task, phase: RunPhase::Calling(0), values: vs.take(0) };
    assert(run_step(s0, GlReply::Error(NO_ERROR)) == (s1, GlStep::Call(task_call(task, 0, vs))));
    lemma_clean_run_from(task, vs, 0);
}


/// While a run drains the errors left behind, each set error flag is answered
/// with another read of it and changes nothing: after any number of set flags,
/// the run goes on exactly as it would have without them.
pub proof fn lemma_drain_errors(v: GlRunView, errors: Seq<u32>, later: Seq<GlReply>)
    requires
        v.phase is Draining,
        forall|i: int| 0 <= i < errors.len() ==> #[trigger] errors[i] != NO_ERROR,
    ensures
        run_replies(v, errors.map_values(|e: u32| GlReply::Error(e)) + later) == (
            run_replies(v, later).0,
            Seq::new(errors.len(), |i: int| GlStep::Call(GlCall::GetError)) + run_replies(
                v,
                later,
            ).1,
        ),
    decreases errors.len(),
{
    let replies = errors.map_values(|e: u32| GlReply::Error(e)) + later;
    if errors.len() == 0 {
        assert(replies =~= later);
        assert(Seq::new(0, |i: int| GlStep::Call(GlCall::GetError)) + run_replies(v, later).1
            =~= run_replies(v, later).1);
    } else {
        let rest = errors.drop_first();
        lemma_drain_errors(v, rest, later);
        assert(replies[0] == GlReply::Error(errors[0]));
        assert(replies.drop_first() =~= rest.map_values(|e: u32| GlReply::Error(e)) + later);
        assert(run_step(v, replies[0]) == (v, GlStep::Call(GlCall::GetError)));
        assert(seq![GlStep::Call(GlCall::GetError)] + (Seq::new(
            rest.len(),
            |i: int| GlStep::Call(GlCall::GetError),
        ) + run_replies(v, later).1) =~= Seq::new(
            errors.len(),
            |i: int| GlStep::Call(GlCall::GetError),
        ) + run_replies(v, later).1);
    }
}

/// A run that meets an error after one of its calls ends there: it gives back
/// the error with the call, and takes no further answer.
pub proof fn lemma_run_stops_at_error(v: GlRunView, code: u32, later: Seq<GlReply>)
    requires
        v.phase is Checking,
        code != NO_ERROR,
    ensures
        ({
            let k = v.phase->Checking_0;
            run_replies(v, seq![GlReply::Error(code)] + later) == (
                GlRunView { phase: RunPhase::Finished, ..v },
                seq![
                    GlStep::Finished(
                        Err(
                            GlError {
                                call: task_call(v.task, k as int, v.values),
                                context: task_call_text(v.task, k as int),
                                code,
                            },
                        ),
                    ),
                ],
            )
        }),
{
    let replies = seq![GlReply::Error(code)] + later;
    assert(replies[0] == GlReply::Error(code));
    let (next, step) = run_step(v, replies[0]);
    assert(next.phase is Finished);
    assert(run_replies(next, replies.drop_first()) == (next, Seq::<GlStep>::empty()));
    assert(seq![step] + Seq::<GlStep>::empty() =~= seq![step]);
}

impl View for GlRun {
    type V = GlRunView;

    /// The state of the run.
    closed spec fn view(&self) -> GlRunView {
        GlRunView { task: self.task, phase: self.phase, values: self.values@ }
    }
}

impl GlRun {

    fn capture_call_exec(gl: &OpenGL, k: usize, values: &Vec<u32>) -> (r: GlCall)
        requires
            k < 8,
            k == 5 ==> values@.len() > 1,
        ensures
            r == capture_call(*gl, k as int, values@),
    {
        if k == 0 {
            GlCall::WaitSemaphore {
                semaphore: gl.semaphore,
                texture: gl.texture,
                layout: LAYOUT_GENERAL_EXT,
            }
        } else if k == 1 {
            GlCall::GetIntegerv { pname: DRAW_FRAMEBUFFER_BINDING }
        } else if k == 2 {
            GlCall::BindFramebuffer { target: DRAW_FRAMEBUFFER, framebuffer: gl.framebuffer }
        } else if k == 3 {
            GlCall::FramebufferTexture2D {
                target: DRAW_FRAMEBUFFER,
                attachment: COLOR_ATTACHMENT0,
                textarget: TEXTURE_2D,
                texture: gl.texture,
                level: 0,
            }
        } else if k == 4 {
            GlCall::BlitFramebuffer {
                src_x0: 0,
                src_y0: 0,
                src_x1: gl.width,
                src_y1: gl.height,
                dst_x0: 0,
                dst_y0: 0,
                dst_x1: gl.width,
                dst_y1: gl.height,
                mask: COLOR_BUFFER_BIT,
                filter: NEAREST,
            }
        } else if k == 5 {
            GlCall::BindFramebuffer { target: DRAW_FRAMEBUFFER, framebuffer: values[1] }
        } else if k == 6 {
            GlCall::SignalSemaphore {
                semaphore: gl.semaphore,
                texture: gl.texture,
                layout: LAYOUT_TRANSFER_SRC_EXT,
            }
        } else {
            GlCall::Flush
        }
    }

    fn init_call_exec(p: &InitParams, k: usize, values: &Vec<u32>) -> (r: GlCall)
        requires
            k < 11,
            values@.len() >= k,
        ensures
            r == init_call(*p, k as int, values@),
    {
        if k == 0 {
            GlCall::CreateMemoryObject
        } else if k == 1 {
            GlCall::MemoryObjectParameteriv {
                memory_object: values[0],
                pname: DEDICATED_MEMORY_OBJECT_EXT,
                value: 1,
            }
        } else if k == 2 {
            GlCall::ImportMemory {
                memory_object: values[0],
                size: p.size,
                handle_type: handle_type(p.handle_kind),
                handle: p.external_image_frame_memory,
            }
        } else if k == 3 {
            GlCall::GenTexture
        } else if k == 4 {
            GlCall::GetIntegerv { pname: TEXTURE_BINDING_2D }
        } else if k == 5 {
            GlCall::BindTexture { target: TEXTURE_2D, texture: values[3] }
        } else if k == 6 {
            GlCall::TexStorageMem2D {
                target: TEXTURE_2D,
                levels: 1,
                internal_format: RGBA8,
                width: p.width,
                height: p.height,
                memory: values[0],
                offset: 0,
            }
        } else if k == 7 {
            GlCall::BindTexture { target: TEXTURE_2D, texture: values[4] }
        } else if k == 8 {
            GlCall::GenSemaphore
        } else if k == 9 {
            GlCall::ImportSemaphore {
                semaphore: values[8],
                handle_type: handle_type(p.handle_kind),
                handle: p.external_semaphore,
            }
        } else {
            GlCall::GenFramebuffer
        }
    }

    fn call_at(&self, k: usize) -> (r: GlCall)
        requires
            k < task_len(self.view().task),
            self.values@.len() >= k,
        ensures
            r == task_call(self.view().task, k as int, self.view().values),
    {
        match &self.task {
            GlTask::Capture(gl) => GlRun::capture_call_exec(gl, k, &self.values),
            GlTask::Init(p) => GlRun::init_call_exec(p, k, &self.values),
        }
    }

    fn call_text_at(&self, k: usize) -> (r: &'static str)
        ensures
            r == task_call_text(self.view().task, k as int),
    {
        match &self.task {
            GlTask::Capture(_) => capture_call_text_exec(k),
            GlTask::Init(p) => init_call_text_exec(p.handle_kind, k),
        }
    }

    fn task_len_exec(&self) -> (r: usize)
        ensures
            r == task_len(self.view().task),
    {
        match &self.task {
            GlTask::Capture(_) => 8,
            GlTask::Init(_) => 11,
        }
    }

    fn done(&self) -> (r: GlDone)
        requires
            self.view().task is Init ==> self.values@.len() == 11,
        ensures
            r == task_done(self.view().task, self.view().values),
    {
        match &self.task {
            GlTask::Capture(_) => GlDone::Captured,
            GlTask::Init(p) => GlDone::Initialized(
                OpenGL {
                    marker: p.marker,
                    width: p.width,
                    height: p.height,
                    memory_object: self.values[0],
                    texture: self.values[3],
                    semaphore: self.values[8],
                    framebuffer: self.values[10],
                },
            ),
        }
    }

    fn start(task: GlTask) -> (r: (GlRun, GlCall))
        ensures
            r.0.view() == (GlRunView { task, phase: RunPhase::Draining, values: seq![] }),
            run_wf(r.0.view()),
            r.1 == GlCall::GetError,
    {
        (GlRun { task, phase: RunPhase::Draining, values: Vec::new() }, GlCall::GetError)
    }

    /// Whether the run waits for an answer and `reply` has the form that the
    /// awaited call gives.
    pub fn accepts(&self, reply: GlReply) -> (r: bool)
        requires
            run_wf(self.view()),
        ensures
            r == (!(self.view().phase is Finished) && reply_fits(awaited_call(self.view()), reply)),
    {
        let call = match self.phase {
            RunPhase::Finished => {
                return false;
            },
            RunPhase::Calling(k) => self.call_at(k),
            _ => GlCall::GetError,
        };
        match call {
            GlCall::GetError => matches!(reply, GlReply::Error(_)),
            GlCall::GetIntegerv { .. } => matches!(reply, GlReply::Integer(_)),
            GlCall::CreateMemoryObject | GlCall::GenTexture | GlCall::GenSemaphore
            | GlCall::GenFramebuffer => matches!(reply, GlReply::Name(_)),
            _ => matches!(reply, GlReply::Done),
        }
    }

    /// Whether the run has ended.
    pub fn is_finished(&self) -> (r: bool)
        ensures
            r == (self.view().phase is Finished),
    {
        match self.phase {
            RunPhase::Finished => true,
            _ => false,
        }
    }

    /// Takes OpenGL's answer to the call last handed out and says what to do next.
    pub fn next(&mut self, reply: GlReply) -> (r: GlStep)
        requires
            run_wf(old(self).view()),
            !(old(self).view().phase is Finished),
            reply_fits(awaited_call(old(self).view()), reply),
        ensures
            run_wf(final(self).view()),
            (final(self).view(), r) == run_step(old(self).view(), reply),
    {
        match self.phase {
            RunPhase::Draining => {
                match reply {
                    GlReply::Error(e) => {
                        if e != NO_ERROR {
                            GlStep::Call(GlCall::GetError)
                        } else {
                            self.phase = RunPhase::Calling(0);
                            GlStep::Call(self.call_at(0))
                        }
                    },
                    _ => GlStep::Call(GlCall::GetError),
                }
            },
            RunPhase::Calling(k) => {
                self.values.push(reply_value_exec(reply));
                self.phase = RunPhase::Checking(k);
                GlStep::Call(GlCall::GetError)
            },
            RunPhase::Checking(k) => {
                let code = match reply {
                    GlReply::Error(e) => e,
                    _ => NO_ERROR,
                };
                if code != NO_ERROR {
                    let call = self.call_at(k);
                    let context = self.call_text_at(k);
                    self.phase = RunPhase::Finished;
                    GlStep::Finished(Err(GlError { call, context, code }))
                } else if k + 1 == self.task_len_exec() {
                    let done = self.done();
                    self.phase = RunPhase::Finished;
                    GlStep::Finished(Ok(done))
                } else {
                    self.phase = RunPhase::Calling(k + 1);
                    GlStep::Call(self.call_at(k + 1))
                }
            },
            RunPhase::Finished => GlStep::Call(GlCall::GetError),
        }
    }
}

impl OpenGL {
    /// Starts the copy of the current frame into the shared texture: first the
    /// errors left behind are dropped, then ownership of the texture is taken
    /// from Vulkan, the frame is blitted through the framebuffer, the framebuffer
    /// bound before is bound again, ownership goes back to Vulkan, and OpenGL is
    /// flushed. Returns the run and its first call.
    pub fn capture(&self) -> (r: (GlRun, GlCall))
        ensures
            r.0.view() == (GlRunView {
                task: GlTask::Capture(*self),
                phase: RunPhase::Draining,
                values: seq![],
            }),
            run_wf(r.0.view()),
            r.1 == GlCall::GetError,
    {
        GlRun::start(GlTask::Capture(self.duplicate()))
    }
}

/// Starts the creation of the objects: first the errors left behind are
/// dropped, then a memory object is created and the memory exported by Vulkan
/// imported into it, a texture is created on that memory (the texture bound
/// before is bound again afterwards), the semaphore exported by Vulkan is
/// imported, and a framebuffer is created. Returns the run and its first call.
pub fn init(
    marker: MainThreadMarker,
    width: i32,
    height: i32,
    size: u64,
    external_image_frame_memory: ExternalObject,
    external_semaphore: ExternalObject,
    handle_kind: HandleKind,
) -> (r: (GlRun, GlCall))
    ensures
        r.0.view() == (GlRunView {
            task: GlTask::Init(
                InitParams {
                    marker,
                    width,
                    height,
                    size,
                    external_image_frame_memory,
                    external_semaphore,
                    handle_kind,
                },
            ),
            phase: RunPhase::Draining,
            values: seq![],
        }),
        run_wf(r.0.view()),
        r.1 == GlCall::GetError,
{
    GlRun::start(
        GlTask::Init(
            InitParams {
                marker,
                width,
                height,
                size,
                external_image_frame_memory,
                external_semaphore,
                handle_kind,
            },
        ),
    )
}

} // verus!
