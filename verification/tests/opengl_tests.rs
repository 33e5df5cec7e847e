use bxt_rs::main_thread_ref_cell::MainThreadMarker;
use bxt_rs::opengl::{
    COLOR_ATTACHMENT0, COLOR_BUFFER_BIT, DEDICATED_MEMORY_OBJECT_EXT, DRAW_FRAMEBUFFER, DRAW_FRAMEBUFFER_BINDING, HANDLE_TYPE_OPAQUE_FD_EXT, HANDLE_TYPE_OPAQUE_WIN32_EXT, INVALID_ENUM, INVALID_FRAMEBUFFER_OPERATION, INVALID_OPERATION, INVALID_VALUE, LAYOUT_GENERAL_EXT, LAYOUT_TRANSFER_SRC_EXT, NEAREST, NO_ERROR, OUT_OF_MEMORY, RGBA8, STACK_OVERFLOW, STACK_UNDERFLOW, TEXTURE_2D, TEXTURE_BINDING_2D, GlCall, GlReply, GlStep, GlDone, GlError, HandleKind, OpenGL, init, check, error_name, error_message,
};

/// Answers calls as an OpenGL without errors would, with names 100, 101, ...
/// and integer queries answered by `binding`.
fn answer(call: &GlCall, next_name: &mut u32, binding: i32) -> GlReply {
    match call {
        GlCall::GetError => GlReply::Error(NO_ERROR),
        GlCall::GetIntegerv { .. } => GlReply::Integer(binding),
        GlCall::CreateMemoryObject
        | GlCall::GenTexture
        | GlCall::GenSemaphore
        | GlCall::GenFramebuffer => {
            let name = *next_name;
            *next_name += 1;
            GlReply::Name(name)
        }
        _ => GlReply::Done,
    }
}

fn init_objects() -> OpenGL {
    let (mut run, mut call) = init(MainThreadMarker::new(), 640, 480, 1 << 20, 7, 8, HandleKind::OpaqueFd);
    let mut next_name = 100;
    loop {
        let reply = answer(&call, &mut next_name, 55);
        match run.next(reply) {
            GlStep::Call(c) => call = c,
            GlStep::Finished(Ok(GlDone::Initialized(gl))) => return gl,
            GlStep::Finished(_) => panic!("creation failed"),
        }
    }
}

#[test]
fn init_makes_the_calls_in_order() {
    let (mut run, first) = init(MainThreadMarker::new(), 640, 480, 1 << 20, 7, 8, HandleKind::OpaqueFd);
    assert_eq!(first, GlCall::GetError);
    let mut calls = vec![first];
    let mut call = first;
    let mut next_name = 100;
    let gl = loop {
        let reply = answer(&call, &mut next_name, 55);
        match run.next(reply) {
            GlStep::Call(c) => {
                calls.push(c);
                call = c;
            }
            GlStep::Finished(Ok(GlDone::Initialized(gl))) => break gl,
            GlStep::Finished(_) => panic!("creation failed"),
        }
    };
    assert!(run.is_finished());
    let e = GlCall::GetError;
    let expected = vec![
        e,
        GlCall::CreateMemoryObject,
        e,
        GlCall::MemoryObjectParameteriv { memory_object: 100, pname: DEDICATED_MEMORY_OBJECT_EXT, value: 1 },
        e,
        GlCall::ImportMemory { memory_object: 100, size: 1 << 20, handle_type: HANDLE_TYPE_OPAQUE_FD_EXT, handle: 7 },
        e,
        GlCall::GenTexture,
        e,
        GlCall::GetIntegerv { pname: TEXTURE_BINDING_2D },
        e,
        GlCall::BindTexture { target: TEXTURE_2D, texture: 101 },
        e,
        GlCall::TexStorageMem2D { target: TEXTURE_2D, levels: 1, internal_format: RGBA8, width: 640, height: 480, memory: 100, offset: 0 },
        e,
        GlCall::BindTexture { target: TEXTURE_2D, texture: 55 },
        e,
        GlCall::GenSemaphore,
        e,
        GlCall::ImportSemaphore { semaphore: 102, handle_type: HANDLE_TYPE_OPAQUE_FD_EXT, handle: 8 },
        e,
        GlCall::GenFramebuffer,
        e,
    ];
    assert_eq!(calls, expected);
    assert_eq!(gl.width(), 640);
    assert_eq!(gl.height(), 480);
    assert_eq!(gl.memory_object(), 100);
    assert_eq!(gl.texture(), 101);
    assert_eq!(gl.semaphore(), 102);
    assert_eq!(gl.framebuffer(), 103);
}

#[test]
fn init_on_windows_imports_win32_handles() {
    let (mut run, mut call) = init(MainThreadMarker::new(), 1, 1, 4, -3, -4, HandleKind::OpaqueWin32);
    let mut next_name = 1;
    let mut imports = Vec::new();
    loop {
        if let GlCall::ImportMemory { handle_type, handle, .. } | GlCall::ImportSemaphore { handle_type, handle, .. } = call {
            imports.push((handle_type, handle));
        }
        match run.next(answer(&call, &mut next_name, 0)) {
            GlStep::Call(c) => call = c,
            GlStep::Finished(r) => {
                assert!(r.is_ok());
                break;
            }
        }
    }
    assert_eq!(imports, vec![(HANDLE_TYPE_OPAQUE_WIN32_EXT, -3), (HANDLE_TYPE_OPAQUE_WIN32_EXT, -4)]);
}

#[test]
fn capture_restores_the_framebuffer_binding() {
    let gl = init_objects();
    let (mut run, first) = gl.capture();
    assert_eq!(first, GlCall::GetError);
    let mut calls = Vec::new();
    let mut call = first;
    let mut next_name = 0;
    loop {
        match run.next(answer(&call, &mut next_name, 9)) {
            GlStep::Call(c) => {
                if c != GlCall::GetError {
                    calls.push(c);
                }
                call = c;
            }
            GlStep::Finished(r) => {
                assert!(matches!(r, Ok(GlDone::Captured)));
                break;
            }
        }
    }
    let expected = vec![
        GlCall::WaitSemaphore { semaphore: 102, texture: 101, layout: LAYOUT_GENERAL_EXT },
        GlCall::GetIntegerv { pname: DRAW_FRAMEBUFFER_BINDING },
        GlCall::BindFramebuffer { target: DRAW_FRAMEBUFFER, framebuffer: 103 },
        GlCall::FramebufferTexture2D { target: DRAW_FRAMEBUFFER, attachment: COLOR_ATTACHMENT0, textarget: TEXTURE_2D, texture: 101, level: 0 },
        GlCall::BlitFramebuffer { src_x0: 0, src_y0: 0, src_x1: 640, src_y1: 480, dst_x0: 0, dst_y0: 0, dst_x1: 640, dst_y1: 480, mask: COLOR_BUFFER_BIT, filter: NEAREST },
        GlCall::BindFramebuffer { target: DRAW_FRAMEBUFFER, framebuffer: 9 },
        GlCall::SignalSemaphore { semaphore: 102, texture: 101, layout: LAYOUT_TRANSFER_SRC_EXT },
        GlCall::Flush,
    ];
    assert_eq!(calls, expected);
}

#[test]
fn capture_drops_errors_left_behind() {
    let gl = init_objects();
    let (mut run, _) = gl.capture();
    assert_eq!(run.next(GlReply::Error(INVALID_ENUM)), GlStep::Call(GlCall::GetError));
    assert_eq!(run.next(GlReply::Error(OUT_OF_MEMORY)), GlStep::Call(GlCall::GetError));
    match run.next(GlReply::Error(NO_ERROR)) {
        GlStep::Call(GlCall::WaitSemaphore { .. }) => {}
        _ => panic!("expected the first call of the capture"),
    }
}

#[test]
fn capture_stops_at_the_first_error() {
    let gl = init_objects();
    let (mut run, _) = gl.capture();
    assert!(matches!(run.next(GlReply::Error(NO_ERROR)), GlStep::Call(GlCall::WaitSemaphore { .. })));
    assert_eq!(run.next(GlReply::Done), GlStep::Call(GlCall::GetError));
    assert!(matches!(run.next(GlReply::Error(NO_ERROR)), GlStep::Call(GlCall::GetIntegerv { .. })));
    assert_eq!(run.next(GlReply::Integer(-1)), GlStep::Call(GlCall::GetError));
    assert!(matches!(run.next(GlReply::Error(NO_ERROR)), GlStep::Call(GlCall::BindFramebuffer { framebuffer: 103, .. })));
    assert_eq!(run.next(GlReply::Done), GlStep::Call(GlCall::GetError));
    match run.next(GlReply::Error(INVALID_OPERATION)) {
        GlStep::Finished(Err(error)) => {
            assert_eq!(error.code, INVALID_OPERATION);
            assert_eq!(error.context, "gl.BindFramebuffer(gl::DRAW_FRAMEBUFFER, self.framebuffer)");
            assert_eq!(error.call, GlCall::BindFramebuffer { target: DRAW_FRAMEBUFFER, framebuffer: 103 });
        }
        _ => panic!("expected the error"),
    }
    assert!(run.is_finished());
}

#[test]
fn negative_binding_is_bound_again_as_unsigned() {
    let gl = init_objects();
    let (mut run, _) = gl.capture();
    run.next(GlReply::Error(NO_ERROR));
    run.next(GlReply::Done);
    run.next(GlReply::Error(NO_ERROR));
    run.next(GlReply::Integer(-1));
    let mut last_bind = None;
    let mut reply = GlReply::Error(NO_ERROR);
    loop {
        match run.next(reply) {
            GlStep::Call(GlCall::GetError) => reply = GlReply::Error(NO_ERROR),
            GlStep::Call(c) => {
                if let GlCall::BindFramebuffer { framebuffer, .. } = c {
                    last_bind = Some(framebuffer);
                }
                reply = GlReply::Done;
            }
            GlStep::Finished(r) => {
                assert!(r.is_ok());
                break;
            }
        }
    }
    assert_eq!(last_bind, Some(u32::MAX));
}

#[test]
fn init_error_names_the_failed_call() {
    let (mut run, _) = init(MainThreadMarker::new(), 2, 2, 16, 1, 2, HandleKind::OpaqueFd);
    run.next(GlReply::Error(NO_ERROR));
    assert_eq!(run.next(GlReply::Name(5)), GlStep::Call(GlCall::GetError));
    assert!(matches!(run.next(GlReply::Error(NO_ERROR)), GlStep::Call(GlCall::MemoryObjectParameteriv { memory_object: 5, .. })));
    run.next(GlReply::Done);
    match run.next(GlReply::Error(INVALID_VALUE)) {
        GlStep::Finished(Err(GlError { call, context, code })) => {
            assert_eq!(context, "gl.MemoryObjectParameterivEXT(memory_object, gl::DEDICATED_MEMORY_OBJECT_EXT, &1)");
            assert_eq!(code, INVALID_VALUE);
            assert_eq!(call, GlCall::MemoryObjectParameteriv { memory_object: 5, pname: DEDICATED_MEMORY_OBJECT_EXT, value: 1 });
        }
        _ => panic!("expected the error"),
    }
}

#[test]
fn delete_calls_release_in_reverse_order() {
    let gl = init_objects();
    assert_eq!(
        gl.delete_calls(),
        vec![
            GlCall::DeleteFramebuffer { framebuffer: 103 },
            GlCall::DeleteSemaphore { semaphore: 102 },
            GlCall::DeleteTexture { texture: 101 },
            GlCall::DeleteMemoryObject { memory_object: 100 },
        ]
    );
}

#[test]
fn error_codes_have_names() {
    assert_eq!(error_name(INVALID_ENUM), "GL_INVALID_ENUM");
    assert_eq!(error_name(INVALID_VALUE), "GL_INVALID_VALUE");
    assert_eq!(error_name(INVALID_OPERATION), "GL_INVALID_OPERATION");
    assert_eq!(error_name(INVALID_FRAMEBUFFER_OPERATION), "GL_INVALID_FRAMEBUFFER_OPERATION");
    assert_eq!(error_name(STACK_OVERFLOW), "GL_STACK_OVERFLOW");
    assert_eq!(error_name(STACK_UNDERFLOW), "GL_STACK_UNDERFLOW");
    assert_eq!(error_name(OUT_OF_MEMORY), "GL_OUT_OF_MEMORY");
    assert_eq!(error_name(0x1234), "unknown");
    assert_eq!(check(NO_ERROR), Ok(()));
    assert_eq!(check(OUT_OF_MEMORY), Err(OUT_OF_MEMORY));
}

#[test]
fn error_messages_name_the_code_in_decimal_and_hex() {
    assert_eq!(
        String::from_utf8(error_message(INVALID_ENUM)).unwrap(),
        "OpenGL error: GL_INVALID_ENUM - 1280 (0x500)"
    );
    assert_eq!(
        String::from_utf8(error_message(0x507)).unwrap(),
        "OpenGL error: unknown - 1287 (0x507)"
    );
    assert_eq!(String::from_utf8(error_message(0)).unwrap(), "OpenGL error: unknown - 0 (0x0)");
    assert_eq!(
        String::from_utf8(error_message(u32::MAX)).unwrap(),
        "OpenGL error: unknown - 4294967295 (0xffffffff)"
    );
    let error = GlError { call: GlCall::Flush, context: "gl.Flush()", code: OUT_OF_MEMORY };
    assert_eq!(String::from_utf8(error.message()).unwrap(), "OpenGL error: GL_OUT_OF_MEMORY - 1285 (0x505)");
}

#[test]
fn run_accepts_only_answers_of_the_awaited_form() {
    let (mut run, _) = init(MainThreadMarker::new(), 2, 2, 16, 1, 2, HandleKind::OpaqueFd);
    assert!(run.accepts(GlReply::Error(INVALID_ENUM)));
    assert!(!run.accepts(GlReply::Done));
    run.next(GlReply::Error(NO_ERROR));
    assert!(run.accepts(GlReply::Name(3)));
    assert!(!run.accepts(GlReply::Integer(3)));
    run.next(GlReply::Name(3));
    run.next(GlReply::Error(NO_ERROR));
    assert!(run.accepts(GlReply::Done));
    run.next(GlReply::Done);
    run.next(GlReply::Error(STACK_OVERFLOW));
    assert!(run.is_finished());
    assert!(!run.accepts(GlReply::Error(NO_ERROR)));
}

#[test]
fn errors_cite_the_failed_call_for_the_handle_kind() {
    for (kind, memory_text, semaphore_text) in [
        (
            HandleKind::OpaqueFd,
            "gl.ImportMemoryFdEXT(memory_object, size, gl::HANDLE_TYPE_OPAQUE_FD_EXT, external_image_frame_memory)",
            "gl.ImportSemaphoreFdEXT(semaphore, gl::HANDLE_TYPE_OPAQUE_FD_EXT, external_semaphore)",
        ),
        (
            HandleKind::OpaqueWin32,
            "gl.ImportMemoryWin32HandleEXT(memory_object, size, gl::HANDLE_TYPE_OPAQUE_WIN32_EXT, external_image_frame_memory)",
            "gl.ImportSemaphoreWin32HandleEXT(semaphore, gl::HANDLE_TYPE_OPAQUE_WIN32_EXT, external_semaphore)",
        ),
    ] {
        for (fail_at, text) in [(2usize, memory_text), (9usize, semaphore_text)] {
            let (mut run, mut call) = init(MainThreadMarker::new(), 4, 4, 64, 1, 2, kind);
            let mut next_name = 1;
            let mut task_calls = 0;
            loop {
                let reply = if call == GlCall::GetError {
                    if task_calls == fail_at + 1 {
                        GlReply::Error(INVALID_VALUE)
                    } else {
                        GlReply::Error(NO_ERROR)
                    }
                } else {
                    task_calls += 1;
                    answer(&call, &mut next_name, 0)
                };
                match run.next(reply) {
                    GlStep::Call(c) => call = c,
                    GlStep::Finished(Err(error)) => {
                        assert_eq!(error.context, text);
                        assert_eq!(error.code, INVALID_VALUE);
                        break;
                    }
                    GlStep::Finished(Ok(_)) => panic!("expected an error"),
                }
            }
        }
    }
}
