use canvas_gl::rendering::program::{BuildStep, Shader, Stage};
use canvas_gl::webgl::{
    check_context_handle, context_attributes, ContextAttributes, ContextError, StencilParams,
    ALWAYS, DECR, EQUAL, GREATER, INCR, INVERT, KEEP, LESS, NEVER, REPLACE,
};

#[test]
fn stencil_defaults() {
    let params = StencilParams::new(7);
    assert_eq!(
        params,
        StencilParams {
            condition: 0x0200,
            reference: 7,
            stencil_fail: 0x1E00,
            depth_fail: 0x1E00,
            pass: 0x1E00
        }
    );
    assert_eq!((NEVER, KEEP), (0x0200, 0x1E00));
}

#[test]
fn stencil_conditions() {
    let base = StencilParams::new(1).replace();
    assert_eq!(base.always(), StencilParams { condition: 0x0207, ..base });
    assert_eq!(base.always().never(), StencilParams { condition: 0x0200, ..base });
    assert_eq!(base.equal(), StencilParams { condition: 0x0202, ..base });
    assert_eq!(base.less_than_stencil(), StencilParams { condition: 0x0201, ..base });
    assert_eq!(base.greater_than_stencil(), StencilParams { condition: 0x0204, ..base });
    assert_eq!(base.pass_if(0x0205), StencilParams { condition: 0x0205, ..base });
    assert_eq!((ALWAYS, EQUAL, LESS, GREATER), (0x0207, 0x0202, 0x0201, 0x0204));
}

#[test]
fn stencil_operations() {
    let base = StencilParams::new(255).equal();
    assert_eq!(base.replace(), StencilParams { pass: 0x1E01, ..base });
    assert_eq!(base.increment(), StencilParams { pass: 0x1E02, ..base });
    assert_eq!(base.decrement(), StencilParams { pass: 0x1E03, ..base });
    assert_eq!(base.invert(), StencilParams { pass: 0x150A, ..base });
    assert_eq!(base.invert().replace(), base.replace());
    assert_eq!((REPLACE, INCR, DECR, INVERT), (0x1E01, 0x1E02, 0x1E03, 0x150A));
    assert_eq!(base.replace().reference, 255);
    assert_eq!(base.replace().stencil_fail, KEEP);
    assert_eq!(base.replace().depth_fail, KEEP);
}

#[test]
fn context_creation_attributes() {
    assert_eq!(
        context_attributes(true),
        ContextAttributes {
            alpha: true,
            stencil: true,
            antialias: true,
            preserve_drawing_buffer: false,
            enable_extensions_by_default: false
        }
    );
    assert!(!context_attributes(false).alpha);
    assert!(context_attributes(false).stencil);
}

#[test]
fn context_handles() {
    assert_eq!(check_context_handle(1), Ok(()));
    assert_eq!(check_context_handle(0), Ok(()));
    assert_eq!(check_context_handle(i32::MAX), Ok(()));
    assert_eq!(check_context_handle(-1), Err(ContextError::NotSupported));
    assert_eq!(check_context_handle(-2), Err(ContextError::FailedNotDeferred));
    assert_eq!(check_context_handle(-6), Err(ContextError::Failed));
    assert_eq!(check_context_handle(-3), Err(ContextError::Other(-3)));
    assert_eq!(check_context_handle(i32::MIN), Err(ContextError::Other(i32::MIN)));
}

#[test]
fn invalid_shader() {
    let none = Shader::invalid();
    assert_eq!(none, Shader { gl_handle: 0, proj_loc: 0, view_loc: 0 });
    assert!(none.is_bound(0));
    assert!(!none.is_bound(3));
    let some = Shader { gl_handle: 3, proj_loc: 1, view_loc: 2 };
    assert!(some.is_bound(3));
    assert!(!some.is_bound(0));
}

#[test]
fn build_succeeds_step_by_step() {
    let step = BuildStep::first();
    assert_eq!(step, BuildStep::Compile(Stage::Vertex));
    let step = step.next(1, String::new());
    assert_eq!(step, BuildStep::Attach(Stage::Vertex));
    let step = step.next(0, "not looked at".to_string());
    assert_eq!(step, BuildStep::Compile(Stage::Fragment));
    let step = step.next(1, "warning".to_string());
    assert_eq!(step, BuildStep::Attach(Stage::Fragment));
    let step = step.next(1, String::new());
    assert_eq!(step, BuildStep::Link);
    let step = step.next(-1, String::new());
    assert_eq!(step, BuildStep::Finished);
    assert_eq!(step.next(0, "late".to_string()), BuildStep::Finished);
}

#[test]
fn build_fails_with_the_log() {
    assert_eq!(
        BuildStep::first().next(0, "vertex: syntax error".to_string()),
        BuildStep::Failed("vertex: syntax error".to_string())
    );
    assert_eq!(
        BuildStep::Compile(Stage::Fragment).next(0, "fragment: syntax error".to_string()),
        BuildStep::Failed("fragment: syntax error".to_string())
    );
    assert_eq!(
        BuildStep::Link.next(0, "varying mismatch".to_string()),
        BuildStep::Failed("varying mismatch".to_string())
    );
    assert_eq!(
        BuildStep::Failed("first".to_string()).next(1, "second".to_string()),
        BuildStep::Failed("first".to_string())
    );
    assert_eq!(
        BuildStep::Failed("first".to_string()).next(0, "second".to_string()),
        BuildStep::Failed("first".to_string())
    );
}
