use plugind::context::{Context, InvokeResult};
use plugind::example::init;
use plugind::plugin_attr::check_plugin_fn;

#[test]
fn it_works() {
    let input = b"Hello World".to_vec();
    fn invoke(_: String, _: Vec<u8>) -> InvokeResult {
        unreachable!()
    }
    let output = init(input.into(), Context::new(invoke));
    assert!(output.is_ok());
    assert_eq!(output.unwrap(), b"Hello World".to_vec());
}

#[test]
fn init_answers_hello_world_for_any_input() {
    fn invoke(_: String, _: Vec<u8>) -> InvokeResult {
        unreachable!()
    }
    let output = init(vec![0xff, 0xfe, 0x00], Context::new(invoke));
    assert!(output == InvokeResult::Success(b"Hello World".to_vec()));
}

#[test]
fn context_log_appends_message_and_newline() {
    let mut ctx = Context::new(0u8);
    assert!(ctx.logs().is_empty());
    ctx.log("log -- Hello World");
    ctx.log("got input: é");
    assert_eq!(ctx.logs(), "log -- Hello World\ngot input: é\n".as_bytes());
    assert_eq!(ctx.invoke, 0u8);
}

#[test]
fn invoke_result_equality() {
    assert!(InvokeResult::Success(vec![1, 2]) == InvokeResult::Success(vec![1, 2]));
    assert!(InvokeResult::Success(vec![1, 2]) != InvokeResult::Success(vec![1, 3]));
    assert!(InvokeResult::Success(vec![1]) != InvokeResult::Failure(vec![1]));
    assert!(InvokeResult::Failure(vec![]) == InvokeResult::Failure(vec![]));
    assert!(InvokeResult::Failure(vec![7]) != InvokeResult::Failure(vec![7, 7]));
    assert!(!InvokeResult::Failure(vec![]).is_ok());
}

#[test]
fn plugin_attribute_checks() {
    assert_eq!(check_plugin_fn(false, true), Some("plugin can only be applied to async functions"));
    assert_eq!(check_plugin_fn(false, false), Some("plugin can only be applied to async functions"));
    assert_eq!(check_plugin_fn(true, false), Some("plugin function must have a return type"));
    assert_eq!(check_plugin_fn(true, true), None);
}

#[test]
fn context_log_keeps_every_message_in_order() {
    let mut ctx = Context::new(0u8);
    let mut expected: Vec<u8> = Vec::new();
    for m in ["first", "", "third line", "ünïcode", "fifth"] {
        ctx.log(m);
        expected.extend_from_slice(m.as_bytes());
        expected.push(b'\n');
        assert_eq!(ctx.logs(), expected.as_slice());
    }
    assert_eq!(ctx.logs(), "first\n\nthird line\nünïcode\nfifth\n".as_bytes());
}
